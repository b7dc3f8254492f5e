use vstd::prelude::*;

use crate::ascii::str_equal;

pub mod help;
pub mod version;

verus! {

/// One registry entry: a unique primary name, zero or more aliases, and help
/// text. The code that runs a command lives with the embedding program; the
/// registry identifies a command by its position in the build list.
pub struct Command {
    pub name: &'static str,
    pub alias: Vec<&'static str>,
    pub help: &'static str,
}

/// A reply destination: the local console, or one remote chat.
#[derive(Clone, Debug, PartialEq, Eq, Structural)]
pub enum Sender {
    Console,
    Telegram { chat: i64 },
}

/// Why a registry could not be built.
#[derive(Clone, Copy, Debug, PartialEq, Eq, Structural)]
pub enum RegistryError {
    /// Two commands share a primary name.
    DuplicateName,
    /// One alias is registered twice, whether by one command or by two.
    DuplicateAlias,
}

/// `key` is one of the aliases of `c`.
pub open spec fn cmd_has_alias(c: Command, key: Seq<char>) -> bool {
    exists|j: int| 0 <= j < c.alias@.len() && c.alias@[j]@ == key
}

/// All primary names in `list` are pairwise distinct.
pub open spec fn names_distinct(list: Seq<Command>) -> bool {
    forall|i: int, j: int|
        0 <= i < j < list.len() ==> list[i].name@ != list[j].name@
}

/// No alias occurs twice in `list`, counting every command's alias vector.
pub open spec fn aliases_distinct(list: Seq<Command>) -> bool {
    forall|i1: int, j1: int, i2: int, j2: int|
        0 <= i1 < list.len() && 0 <= j1 < list[i1].alias@.len() && 0 <= i2 < list.len() && 0 <= j2
            < list[i2].alias@.len() && (i1 != i2 || j1 != j2) ==> list[i1].alias@[j1]@
            != list[i2].alias@[j2]@
}

/// The command registry: the commands in registration order. Lookup tries
/// primary names first and aliases second, so a primary name always wins over
/// a like-named alias of another command.
pub struct Commands {
    pub list: Vec<Command>,
}

impl Commands {
    /// Some command in the registry has primary name `key`.
    pub open spec fn has_name(&self, key: Seq<char>) -> bool {
        exists|i: int| 0 <= i < self.list@.len() && self.list@[i].name@ == key
    }

    /// Some command in the registry has `key` among its aliases.
    pub open spec fn has_alias(&self, key: Seq<char>) -> bool {
        exists|i: int| 0 <= i < self.list@.len() && cmd_has_alias(self.list@[i], key)
    }

    /// A valid registry: names unique, aliases unique.
    pub open spec fn wf(&self) -> bool {
        names_distinct(self.list@) && aliases_distinct(self.list@)
    }

    /// Builds a registry, refusing duplicate names and duplicate aliases
    /// instead of letting a later registration silently shadow an earlier
    /// one.
    pub fn build(list: Vec<Command>) -> (r: Result<Commands, RegistryError>)
        ensures
            !names_distinct(list@) ==> r == Err::<Commands, RegistryError>(
                RegistryError::DuplicateName,
            ),
            names_distinct(list@) && !aliases_distinct(list@) ==> r == Err::<
                Commands,
                RegistryError,
            >(RegistryError::DuplicateAlias),
            names_distinct(list@) && aliases_distinct(list@) ==> (r matches Ok(c) && c.list@
                == list@ && c.wf()),
    {
        let n = list.len();
        let mut i: usize = 0;
        while i < n
            invariant
                i <= n,
                n == list@.len(),
                forall|p: int, q: int| 0 <= p < q < i ==> list@[p].name@ != list@[q].name@,
            decreases n - i,
        {
            let mut j: usize = 0;
            while j < i
                invariant
                    j <= i < n,
                    n == list@.len(),
                    forall|p: int| 0 <= p < j ==> list@[p].name@ != list@[i as int].name@,
                decreases i - j,
            {
                if str_equal(list[j].name, list[i].name) {
                    proof {
                        assert(!names_distinct(list@));
                    }
                    return Err(RegistryError::DuplicateName);
                }
                j = j + 1;
            }
            i = i + 1;
        }
        let mut seen: Vec<&'static str> = Vec::new();
        let mut i: usize = 0;
        while i < n
            invariant
                i <= n,
                n == list@.len(),
                names_distinct(list@),
                forall|p1: int, q1: int, p2: int, q2: int|
                    0 <= p1 < i && 0 <= q1 < list@[p1].alias@.len() && 0 <= p2 < i && 0 <= q2
                        < list@[p2].alias@.len() && (p1 != p2 || q1 != q2) ==> list@[p1].alias@[q1]@
                        != list@[p2].alias@[q2]@,
                forall|p: int, q: int|
                    #![trigger list@[p].alias@[q]]
                    0 <= p < i && 0 <= q < list@[p].alias@.len() ==> view_in(
                        seen@,
                        list@[p].alias@[q]@,
                    ),
                seen_sourced(list@, i as int, seen@),
            decreases n - i,
        {
            let ghost old_seen = seen@;
            let dup = scan_aliases(&list[i], &mut seen);
            if dup {
                proof {
                    assert(!aliases_distinct(list@));
                }
                return Err(RegistryError::DuplicateAlias);
            }
            proof {
                assert forall|p: int, q: int|
                    #![trigger list@[p].alias@[q]]
                    0 <= p < i + 1 && 0 <= q < list@[p].alias@.len() implies view_in(
                    seen@,
                    list@[p].alias@[q]@,
                ) by {
                    if p < i {
                        let k = choose|k: int|
                            0 <= k < old_seen.len() && old_seen[k]@ == list@[p].alias@[q]@;
                        assert(seen@[k]@ == list@[p].alias@[q]@);
                    } else {
                        let k = old_seen.len() + q;
                        assert(seen@[k]@ == list@[p].alias@[q]@);
                    }
                }
                assert forall|k: int| #![trigger seen@[k]] 0 <= k < seen@.len() implies exists|
                    p: int,
                    q: int,
                |
                    #![trigger list@[p].alias@[q]]
                    0 <= p < i + 1 && 0 <= q < list@[p].alias@.len() && seen@[k]@
                        == list@[p].alias@[q]@ by {
                    if k < old_seen.len() {
                        let (p, q) = choose|p: int, q: int|
                            0 <= p < i && 0 <= q < list@[p].alias@.len() && old_seen[k]@
                                == list@[p].alias@[q]@;
                        assert(seen@[k]@ == list@[p].alias@[q]@);
                    } else {
                        let q = k - old_seen.len();
                        assert(seen@[k]@ == list@[i as int].alias@[q]@);
                    }
                }
                lemma_seen_sourced_extend(list@, i as int, old_seen, seen@);
            }
            i = i + 1;
        }
        Ok(Commands { list })
    }

    /// Resolves `key` against the registry: an exact primary-name match wins;
    /// failing that, an exact alias match; failing both, no command.
    pub fn lookup(&self, key: &str) -> (r: Option<usize>)
        requires
            self.wf(),
        ensures
            match r {
                Some(i) => i < self.list@.len() && (self.list@[i as int].name@ == key@ || (
                !self.has_name(key@) && cmd_has_alias(self.list@[i as int], key@))),
                None => !self.has_name(key@) && !self.has_alias(key@),
            },
            self.has_name(key@) ==> (r matches Some(i) && self.list@[i as int].name@ == key@),
    {
        let n = self.list.len();
        let mut i: usize = 0;
        while i < n
            invariant
                i <= n,
                n == self.list@.len(),
                forall|p: int| 0 <= p < i ==> self.list@[p].name@ != key@,
            decreases n - i,
        {
            if str_equal(self.list[i].name, key) {
                return Some(i);
            }
            i = i + 1;
        }
        let mut i: usize = 0;
        while i < n
            invariant
                i <= n,
                n == self.list@.len(),
                !self.has_name(key@),
                forall|p: int| 0 <= p < i ==> !cmd_has_alias(self.list@[p], key@),
            decreases n - i,
        {
            let alias_len = self.list[i].alias.len();
            let mut j: usize = 0;
            while j < alias_len
                invariant
                    i < n,
                    j <= alias_len,
                    n == self.list@.len(),
                    !self.has_name(key@),
                    alias_len == self.list@[i as int].alias@.len(),
                    forall|q: int| 0 <= q < j ==> self.list@[i as int].alias@[q]@ != key@,
                decreases alias_len - j,
            {
                if str_equal(self.list[i].alias[j], key) {
                    return Some(i);
                }
                j = j + 1;
            }
            i = i + 1;
        }
        None
    }
}

/// `key` occurs in `s`, compared by contents.
pub open spec fn view_in(s: Seq<&'static str>, key: Seq<char>) -> bool {
    exists|k: int| 0 <= k < s.len() && s[k]@ == key
}

/// `s` is an alias of one of the first `upto` commands of `list`.
pub open spec fn sourced_elem(list: Seq<Command>, upto: int, s: &'static str) -> bool {
    exists|p: int, q: int|
        #![trigger list[p].alias@[q]]
        0 <= p < upto && 0 <= q < list[p].alias@.len() && s@ == list[p].alias@[q]@
}

/// Every entry of `seen` is an alias of one of the first `upto` commands.
pub open spec fn seen_sourced(list: Seq<Command>, upto: int, seen: Seq<&'static str>) -> bool {
    forall|k: int| #![trigger seen[k]] 0 <= k < seen.len() ==> sourced_elem(list, upto, seen[k])
}

/// Appends every alias of `c` to `seen`, reporting whether one of them was
/// already present, in `seen` or earlier in the same alias vector.
fn scan_aliases(c: &Command, seen: &mut Vec<&'static str>) -> (dup: bool)
    ensures
        !dup ==> final(seen)@ == old(seen)@ + c.alias@,
        !dup ==> forall|q: int|
            0 <= q < c.alias@.len() ==> !view_in(old(seen)@, c.alias@[q]@),
        !dup ==> forall|q1: int, q2: int|
            0 <= q1 < q2 < c.alias@.len() ==> c.alias@[q1]@ != c.alias@[q2]@,
        dup ==> (exists|q: int| 0 <= q < c.alias@.len() && view_in(old(seen)@, c.alias@[q]@))
            || (exists|q1: int, q2: int|
            0 <= q1 < q2 < c.alias@.len() && c.alias@[q1]@ == c.alias@[q2]@),
{
    let alias_len = c.alias.len();
    let mut j: usize = 0;
    while j < alias_len
        invariant
            j <= alias_len,
            alias_len == c.alias@.len(),
            seen@ == old(seen)@ + c.alias@.subrange(0, j as int),
            forall|q: int| 0 <= q < j ==> !view_in(old(seen)@, c.alias@[q]@),
            forall|q1: int, q2: int| 0 <= q1 < q2 < j ==> c.alias@[q1]@ != c.alias@[q2]@,
        decreases alias_len - j,
    {
        let a = c.alias[j];
        if contains_str(&seen, a) {
            proof {
                let k = choose|k: int| 0 <= k < seen@.len() && seen@[k]@ == a@;
                if k < old(seen)@.len() {
                    assert(old(seen)@[k]@ == a@);
                } else {
                    let q1 = k - old(seen)@.len();
                    assert(c.alias@[q1]@ == a@);
                }
            }
            return true;
        }
        let ghost pre = seen@;
        seen.push(a);
        proof {
            assert(seen@ =~= old(seen)@ + c.alias@.subrange(0, j + 1));
            assert forall|q: int| 0 <= q < j + 1 implies !view_in(
                old(seen)@,
                c.alias@[q]@,
            ) by {
                if q == j && view_in(old(seen)@, c.alias@[q]@) {
                    let k = choose|k: int|
                        0 <= k < old(seen)@.len() && old(seen)@[k]@ == c.alias@[j as int]@;
                    assert(pre[k]@ == a@);
                }
            }
            assert forall|q1: int, q2: int| 0 <= q1 < q2 < j + 1 implies c.alias@[q1]@
                != c.alias@[q2]@ by {
                if q2 == j {
                    let k = old(seen)@.len() + q1;
                    assert((old(seen)@ + c.alias@.subrange(0, j as int))[k]@ == c.alias@[q1]@);
                }
            }
        }
        j = j + 1;
    }
    proof {
        assert(seen@ =~= old(seen)@ + c.alias@);
    }
    false
}

proof fn lemma_seen_sourced_extend(
    list: Seq<Command>,
    i: int,
    old_seen: Seq<&'static str>,
    new_seen: Seq<&'static str>,
)
    requires
        0 <= i < list.len(),
        seen_sourced(list, i, old_seen),
        new_seen == old_seen + list[i].alias@,
    ensures
        seen_sourced(list, i + 1, new_seen),
{
    assert forall|k: int| #![trigger new_seen[k]] 0 <= k < new_seen.len() implies sourced_elem(
        list,
        i + 1,
        new_seen[k],
    ) by {
        if k < old_seen.len() {
            assert(new_seen[k] == old_seen[k]);
            assert(sourced_elem(list, i, old_seen[k]));
            let (p, q) = choose|p: int, q: int|
                #![trigger list[p].alias@[q]]
                0 <= p < i && 0 <= q < list[p].alias@.len() && old_seen[k]@ == list[p].alias@[q]@;
            assert(0 <= p < i + 1 && 0 <= q < list[p].alias@.len() && new_seen[k]@
                == list[p].alias@[q]@);
        } else {
            let q = k - old_seen.len();
            assert(0 <= i < i + 1 && 0 <= q < list[i].alias@.len() && new_seen[k]@
                == list[i].alias@[q]@);
        }
    }
}

/// `key` occurs in `v`, compared by contents.
fn contains_str(v: &Vec<&'static str>, key: &str) -> (r: bool)
    ensures
        r == view_in(v@, key@),
{
    let n = v.len();
    let mut i: usize = 0;
    while i < n
        invariant
            i <= n,
            n == v@.len(),
            forall|k: int| 0 <= k < i ==> v@[k]@ != key@,
        decreases n - i,
    {
        if str_equal(v[i], key) {
            return true;
        }
        i = i + 1;
    }
    false
}

impl Default for Commands {
    /// The stock registry: the help command and the version command.
    fn default() -> (r: Self)
        ensures
            r.wf(),
            r.list@.len() == 2,
            r.list@[0].name@ == "help"@,
            r.list@[1].name@ == "version"@,
            r.list@[0].alias@.len() == 0,
            r.list@[1].alias@.len() == 0,
    {
        let list = vec![help::command(), version::version_command()];
        proof {
            reveal_strlit("help");
            reveal_strlit("version");
            assert(list@[0].name@.len() != list@[1].name@.len());
            assert(names_distinct(list@));
            assert(aliases_distinct(list@));
        }
        Commands { list }
    }
}

/// The text of the one reply a caller gets for an unresolvable command key.
pub open spec fn spec_unknown_reply(key: Seq<char>) -> Seq<char> {
    "No such command `"@ + key + "`"@
}

/// Renders the unknown-command reply for `key`.
pub fn unknown_command_reply(key: &str) -> (r: String)
    ensures
        r@ == spec_unknown_reply(key@),
{
    let mut s = String::from_str("No such command `");
    s.append(key);
    s.append("`");
    proof {
        assert(s@ =~= spec_unknown_reply(key@));
    }
    s
}

} // verus!
