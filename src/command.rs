//! Command records, the collection they are picked from, its namespace tabs
//! and the filter that decides which commands the Search screen lists.
use vstd::prelude::*;
use vstd::string::*;
use crate::text::{contains, text_contains, views};

verus! {

/// A stored shell command.
#[derive(Clone, Debug, PartialEq, Eq)]
pub struct HoardCommand {
    pub name: String,
    pub namespace: String,
    /// The command text, a template that may hold parameter tokens.
    pub command: String,
    pub description: String,
}

impl HoardCommand {
    /// A field-by-field copy.
    pub fn duplicate(&self) -> (r: Self)
        ensures
            r == *self,
    {
        HoardCommand {
            name: self.name.clone(),
            namespace: self.namespace.clone(),
            command: self.command.clone(),
            description: self.description.clone(),
        }
    }
}

/// The collection of stored commands.
pub struct CommandTrove {
    pub commands: Vec<HoardCommand>,
}

/// The label of the first namespace tab, which lists every namespace.
pub open spec fn all_label() -> Seq<char> {
    seq!['A', 'l', 'l']
}

/// The namespaces of `cs`, each once, in the order of first appearance.
pub open spec fn distinct_namespaces(cs: Seq<HoardCommand>) -> Seq<Seq<char>>
    decreases cs.len(),
{
    if cs.len() == 0 {
        Seq::empty()
    } else {
        let r = distinct_namespaces(cs.drop_last());
        if r.contains(cs.last().namespace@) {
            r
        } else {
            r.push(cs.last().namespace@)
        }
    }
}

/// The namespace tabs: the tab of all namespaces, then one per namespace.
pub open spec fn tab_labels(cs: Seq<HoardCommand>) -> Seq<Seq<char>> {
    seq![all_label()] + distinct_namespaces(cs)
}

/// `c` matches the query `q` when `q` occurs in its name, its command text
/// or its description.
pub open spec fn matches_query(c: HoardCommand, q: Seq<char>) -> bool {
    contains(c.name@, q) || contains(c.command@, q) || contains(c.description@, q)
}

/// `c` belongs to tab `tab` of `tabs`: tab 0 holds every command, any other
/// tab the commands of the namespace it names.
pub open spec fn in_tab(c: HoardCommand, tabs: Seq<Seq<char>>, tab: int) -> bool {
    tab == 0 || (0 <= tab < tabs.len() && c.namespace@ == tabs[tab])
}

/// The commands of `cs`, in their order, that belong to the tab and match the query.
pub open spec fn filtered(cs: Seq<HoardCommand>, q: Seq<char>, tabs: Seq<Seq<char>>, tab: int) -> Seq<
    HoardCommand,
>
    decreases cs.len(),
{
    if cs.len() == 0 {
        Seq::empty()
    } else {
        let r = filtered(cs.drop_last(), q, tabs, tab);
        if in_tab(cs.last(), tabs, tab) && matches_query(cs.last(), q) {
            r.push(cs.last())
        } else {
            r
        }
    }
}

/// Whether `name` is one of `names`.
fn has_name(names: &Vec<String>, name: &String) -> (r: bool)
    ensures
        r == views(names@).contains(name@),
{
    let mut i: usize = 0;
    while i < names.len()
        invariant
            i <= names@.len(),
            forall|k: int| 0 <= k < i ==> names@[k]@ != name@,
        decreases names.len() - i,
    {
        if names[i] == *name {
            assert(views(names@)[i as int] == name@);
            return true;
        }
        i = i + 1;
    }
    assert(!views(names@).contains(name@)) by {
        if views(names@).contains(name@) {
            let k = choose|k: int| 0 <= k < views(names@).len() && views(names@)[k] == name@;
            assert(names@[k]@ == name@);
        }
    }
    false
}

impl CommandTrove {
    /// The namespaces of the stored commands, each once, in the order of
    /// first appearance.
    pub fn namespaces(&self) -> (r: Vec<String>)
        ensures
            views(r@) == distinct_namespaces(self.commands@),
    {
        let mut r: Vec<String> = Vec::new();
        let mut i: usize = 0;
        while i < self.commands.len()
            invariant
                i <= self.commands@.len(),
                views(r@) == distinct_namespaces(self.commands@.subrange(0, i as int)),
            decreases self.commands.len() - i,
        {
            let ghost pre = self.commands@.subrange(0, i as int);
            assert(self.commands@.subrange(0, i + 1).drop_last() =~= pre);
            let ns = &self.commands[i].namespace;
            let ghost before = r@;
            if !has_name(&r, ns) {
                r.push(ns.clone());
                assert(views(r@) =~= views(before).push(ns@));
            }
            i = i + 1;
        }
        assert(self.commands@.subrange(0, i as int) =~= self.commands@);
        r
    }

    /// The namespace tabs: "All" first, then the namespaces.
    pub fn namespace_tabs(&self) -> (r: Vec<String>)
        ensures
            views(r@) == tab_labels(self.commands@),
    {
        let rest = self.namespaces();
        let mut r: Vec<String> = Vec::new();
        let all = String::from_str("All");
        proof {
            reveal_strlit("All");
            assert(all@ =~= all_label());
        }
        r.push(all);
        assert(views(r@) =~= seq![all_label()] + views(rest@).subrange(0, 0));
        let mut i: usize = 0;
        while i < rest.len()
            invariant
                i <= rest@.len(),
                views(r@) == seq![all_label()] + views(rest@).subrange(0, i as int),
            decreases rest.len() - i,
        {
            let ghost before = r@;
            r.push(rest[i].clone());
            assert(views(r@) =~= views(before).push(rest@[i as int]@));
            i = i + 1;
            assert(views(rest@).subrange(0, i as int) =~= views(rest@).subrange(0, i - 1).push(
                rest@[i - 1]@,
            ));
        }
        assert(views(rest@).subrange(0, i as int) =~= views(rest@));
        r
    }
}

/// Whether `c` matches the query `q`.
pub fn command_matches(c: &HoardCommand, q: &String) -> (r: bool)
    ensures
        r == matches_query(*c, q@),
{
    text_contains(&c.name, q) || text_contains(&c.command, q) || text_contains(&c.description, q)
}

/// Whether `c` belongs to tab `tab` of `tabs`.
pub fn command_in_tab(c: &HoardCommand, tabs: &Vec<String>, tab: usize) -> (r: bool)
    ensures
        r == in_tab(*c, views(tabs@), tab as int),
{
    tab == 0 || (tab < tabs.len() && c.namespace == tabs[tab])
}

/// The commands of `commands`, in their order, that belong to tab `tab` and
/// match `query`.
pub fn filter_commands(commands: &Vec<HoardCommand>, query: &String, tabs: &Vec<String>, tab: usize) -> (r:
    Vec<HoardCommand>)
    ensures
        r@ == filtered(commands@, query@, views(tabs@), tab as int),
{
    let mut r: Vec<HoardCommand> = Vec::new();
    let mut i: usize = 0;
    while i < commands.len()
        invariant
            i <= commands@.len(),
            r@ == filtered(commands@.subrange(0, i as int), query@, views(tabs@), tab as int),
        decreases commands.len() - i,
    {
        assert(commands@.subrange(0, i + 1).drop_last() =~= commands@.subrange(0, i as int));
        let c = &commands[i];
        if command_in_tab(c, tabs, tab) && command_matches(c, query) {
            r.push(c.duplicate());
        }
        i = i + 1;
    }
    assert(commands@.subrange(0, i as int) =~= commands@);
    r
}

} // verus!
