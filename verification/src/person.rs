//! Directory entries of persons and groups, and what the bootstrap reads
//! from them: how many administrators there are, who they are, whether a
//! person has registered a passkey, and whether a person belongs to a group.
use vstd::prelude::*;

use crate::client::KanidmCall;
use crate::error::{wraps, AppError, AppResult, KanidmError};
use crate::logic::any_has_elements;

verus! {

/// A directory entry of the identity server: its attributes, each a name
/// with its values, as a map from names to values. No name occurs twice (the
/// type's invariant), as in the server's own entries.
#[derive(Debug)]
pub struct Entry {
    attrs: Vec<(String, Vec<String>)>,
}

/// The values of the attribute `name` among `attrs`: those of its first
/// occurrence, or `None` where the attribute is absent.
pub open spec fn attr_lookup(attrs: Seq<(Seq<char>, Seq<Seq<char>>)>, name: Seq<char>) -> Option<
    Seq<Seq<char>>,
>
    decreases attrs.len(),
{
    if attrs.len() == 0 {
        None
    } else if attrs[0].0 == name {
        Some(attrs[0].1)
    } else {
        attr_lookup(attrs.drop_first(), name)
    }
}

/// Whether no attribute name occurs twice, as in the server's entries.
pub open spec fn names_distinct(attrs: Seq<(Seq<char>, Seq<Seq<char>>)>) -> bool {
    forall|i: int, j: int| 0 <= i < j < attrs.len() ==> #[trigger] attrs[i].0 != #[trigger] attrs[j].0
}

/// In an entry whose attribute names are distinct, looking up a name gives
/// exactly the values stored under it: the entry reads as a map from names
/// to values.
pub proof fn lemma_lookup_reads_as_map(attrs: Seq<(Seq<char>, Seq<Seq<char>>)>, i: int)
    requires
        names_distinct(attrs),
        0 <= i < attrs.len(),
    ensures
        attr_lookup(attrs, attrs[i].0) == Some(attrs[i].1),
    decreases i,
{
    if i > 0 {
        let rest = attrs.drop_first();
        assert(attrs[0].0 != attrs[i].0);
        assert forall|a: int, b: int| 0 <= a < b < rest.len() implies #[trigger] rest[a].0
            != #[trigger] rest[b].0 by {
            assert(rest[a] == attrs[a + 1]);
            assert(rest[b] == attrs[b + 1]);
        }
        assert(rest[i - 1] == attrs[i]);
        lemma_lookup_reads_as_map(rest, i - 1);
    }
}

/// A name that no attribute carries has no values.
pub proof fn lemma_absent_name_has_no_values(attrs: Seq<(Seq<char>, Seq<Seq<char>>)>, name: Seq<char>)
    requires
        forall|i: int| 0 <= i < attrs.len() ==> #[trigger] attrs[i].0 != name,
    ensures
        attr_lookup(attrs, name) is None,
    decreases attrs.len(),
{
    if attrs.len() > 0 {
        let rest = attrs.drop_first();
        assert(attrs[0].0 != name);
        assert forall|i: int| 0 <= i < rest.len() implies #[trigger] rest[i].0 != name by {
            assert(rest[i] == attrs[i + 1]);
        }
        lemma_absent_name_has_no_values(rest, name);
    }
}

/// The name of the group of administrators.
pub open spec fn admin_group_name() -> Seq<char> {
    "idm_admins"@
}

/// The number of values of an attribute, 0 where it is absent.
pub open spec fn value_count(values: Option<Seq<Seq<char>>>) -> nat {
    match values {
        Some(v) => v.len(),
        None => 0,
    }
}

/// The values of an attribute, none where it is absent.
pub open spec fn values_or_none(values: Option<Seq<Seq<char>>>) -> Seq<Seq<char>> {
    match values {
        Some(v) => v,
        None => Seq::empty(),
    }
}

/// Whether an attribute is present with at least one value.
pub open spec fn present_with_values(values: Option<Seq<Seq<char>>>) -> bool {
    values matches Some(v) && v.len() > 0
}

/// The attributes after setting `name` to `values` in a map from names to
/// values: `name` maps to `values`, every other name keeps its values.
pub open spec fn sets_attr(
    before: Seq<(Seq<char>, Seq<Seq<char>>)>,
    after: Seq<(Seq<char>, Seq<Seq<char>>)>,
    name: Seq<char>,
    values: Seq<Seq<char>>,
) -> bool {
    &&& attr_lookup(after, name) == Some(values)
    &&& forall|n: Seq<char>| n != name ==> #[trigger] attr_lookup(after, n) == attr_lookup(before, n)
}

/// Appending an attribute leaves the lookup of every name that occurs before
/// it as it was, and makes a name that did not occur find the new values.
proof fn lemma_lookup_after_push(
    attrs: Seq<(Seq<char>, Seq<Seq<char>>)>,
    x: (Seq<char>, Seq<Seq<char>>),
    n: Seq<char>,
)
    ensures
        attr_lookup(attrs.push(x), n) == (match attr_lookup(attrs, n) {
            Some(v) => Some(v),
            None => if x.0 == n {
                Some(x.1)
            } else {
                None
            },
        }),
    decreases attrs.len(),
{
    if attrs.len() == 0 {
        assert(attrs.push(x).drop_first() =~= Seq::<(Seq<char>, Seq<Seq<char>>)>::empty());
    } else {
        assert(attrs.push(x)[0] == attrs[0]);
        assert(attrs.push(x).drop_first() =~= attrs.drop_first().push(x));
        lemma_lookup_after_push(attrs.drop_first(), x, n);
    }
}

/// Replacing the attribute at `i` by one of the same name leaves the lookup
/// of every other name as it was.
proof fn lemma_lookup_after_update(
    attrs: Seq<(Seq<char>, Seq<Seq<char>>)>,
    i: int,
    x: (Seq<char>, Seq<Seq<char>>),
    n: Seq<char>,
)
    requires
        0 <= i < attrs.len(),
        attrs[i].0 != n,
        x.0 != n,
    ensures
        attr_lookup(attrs.update(i, x), n) == attr_lookup(attrs, n),
    decreases i,
{
    if i == 0 {
        assert(attrs.update(0, x).drop_first() =~= attrs.drop_first());
    } else {
        assert(attrs.update(i, x)[0] == attrs[0]);
        assert(attrs.update(i, x).drop_first() =~= attrs.drop_first().update(i - 1, x));
        lemma_lookup_after_update(attrs.drop_first(), i - 1, x, n);
    }
}

impl Entry {
    /// The attributes as values.
    pub closed spec fn attr_values(&self) -> Seq<(Seq<char>, Seq<Seq<char>>)> {
        self.attrs.deep_view()
    }

    /// No attribute name occurs twice.
    #[verifier::type_invariant]
    spec fn names_unique(self) -> bool {
        names_distinct(self.attrs.deep_view())
    }

    /// An entry without attributes.
    pub fn new() -> (r: Entry)
        ensures
            r.attr_values() == Seq::<(Seq<char>, Seq<Seq<char>>)>::empty(),
    {
        let attrs: Vec<(String, Vec<String>)> = Vec::new();
        assert(attrs.deep_view() =~= Seq::<(Seq<char>, Seq<Seq<char>>)>::empty());
        Entry { attrs }
    }

    /// Sets the attribute `name` to `values`, as inserting into a map does:
    /// an attribute of that name is replaced, else one is added.
    pub fn insert(&mut self, name: String, values: Vec<String>)
        ensures
            names_distinct(final(self).attr_values()),
            sets_attr(old(self).attr_values(), final(self).attr_values(), name@, values.deep_view()),
    {
        proof {
            use_type_invariant(&*self);
        }
        let mut attrs: Vec<(String, Vec<String>)> = Vec::new();
        std::mem::swap(&mut attrs, &mut self.attrs);
        let ghost before = attrs.deep_view();
        let ghost x = (name@, values.deep_view());
        let n = attrs.len();
        let mut i: usize = 0;
        let mut found = false;
        while i < n
            invariant_except_break
                !found,
                forall|j: int| 0 <= j < i ==> #[trigger] before[j].0 != name@,
            invariant
                n == attrs.len(),
                before == attrs.deep_view(),
                names_distinct(before),
                i <= n,
            ensures
                found ==> i < n && before[i as int].0 == name@,
                !found ==> forall|j: int| 0 <= j < n ==> #[trigger] before[j].0 != name@,
            decreases n - i,
        {
            if attrs[i].0 == name {
                found = true;
                break;
            }
            i = i + 1;
        }
        if found {
            attrs.set(i, (name, values));
            proof {
                let after = before.update(i as int, x);
                assert(attrs.deep_view() =~= after);
                assert forall|a: int, b: int| 0 <= a < b < after.len() implies #[trigger] after[a].0
                    != #[trigger] after[b].0 by {
                    assert(before[a].0 != before[b].0);
                }
                lemma_lookup_reads_as_map(after, i as int);
                assert forall|m: Seq<char>| m != x.0 implies #[trigger] attr_lookup(after, m)
                    == attr_lookup(before, m) by {
                    lemma_lookup_after_update(before, i as int, x, m);
                }
            }
        } else {
            attrs.push((name, values));
            proof {
                let after = before.push(x);
                assert(attrs.deep_view() =~= after);
                assert forall|a: int, b: int| 0 <= a < b < after.len() implies #[trigger] after[a].0
                    != #[trigger] after[b].0 by {
                    if b < before.len() {
                        assert(before[a].0 != before[b].0);
                    } else {
                        assert(before[a].0 != x.0);
                    }
                }
                lemma_absent_name_has_no_values(before, x.0);
                lemma_lookup_after_push(before, x, x.0);
                assert forall|m: Seq<char>| m != x.0 implies #[trigger] attr_lookup(after, m)
                    == attr_lookup(before, m) by {
                    lemma_lookup_after_push(before, x, m);
                }
            }
        }
        self.attrs = attrs;
    }

    /// The values of the attribute `name`, or `None` where the entry lacks it.
    pub fn attr(&self, name: &str) -> (r: Option<&Vec<String>>)
        ensures
            r matches Some(v) ==> attr_lookup(self.attr_values(), name@) == Some(v.deep_view()),
            r is None ==> attr_lookup(self.attr_values(), name@) is None,
    {
        let wanted = String::from_str(name);
        let n = self.attrs.len();
        let mut i: usize = 0;
        proof {
            assert(self.attr_values().skip(0) =~= self.attr_values());
        }
        while i < n
            invariant
                n == self.attrs.len(),
                i <= n,
                wanted@ == name@,
                attr_lookup(self.attr_values(), name@) == attr_lookup(
                    self.attr_values().skip(i as int),
                    name@,
                ),
            decreases n - i,
        {
            let key: &String = &self.attrs[i].0;
            proof {
                assert(self.attr_values().skip(i as int)[0] == self.attr_values()[i as int]);
                assert(self.attr_values().skip(i as int).drop_first() =~= self.attr_values().skip(
                    i + 1,
                ));
            }
            if *key == wanted {
                return Some(&self.attrs[i].1);
            }
            i = i + 1;
        }
        None
    }
}

/// How many administrators there are, given what fetching the group of
/// administrators gave: no group means none; a group without members means
/// none.
pub fn count_admins_from(group: Result<Option<Entry>, KanidmError>) -> (r: AppResult<usize>)
    ensures
        group matches Err(k) ==> (r matches Err(e) && wraps(
            e,
            "Failed to get group entry"@,
            AppError::Kanidm(k),
        )),
        group matches Ok(None) ==> r == Ok::<usize, AppError>(0),
        group matches Ok(Some(g)) ==> r == Ok::<usize, AppError>(
            value_count(attr_lookup(g.attr_values(), "member"@)) as usize,
        ),
{
    match group {
        Err(k) => Err(KanidmCall::GetGroup.fail(k)),
        Ok(None) => Ok(0),
        Ok(Some(entry)) => match entry.attr("member") {
            Some(members) => Ok(members.len()),
            None => Ok(0),
        },
    }
}

/// The members of the group of administrators, given what fetching the group
/// gave: no group, or a group without members, means none.
pub fn admin_members_from(group: Result<Option<Entry>, KanidmError>) -> (r: AppResult<Vec<String>>)
    ensures
        group matches Err(k) ==> (r matches Err(e) && wraps(
            e,
            "Failed to get group entry"@,
            AppError::Kanidm(k),
        )),
        group matches Ok(None) ==> (r matches Ok(v) && v.deep_view() == Seq::<Seq<char>>::empty()),
        group matches Ok(Some(g)) ==> (r matches Ok(v) && v.deep_view() == values_or_none(
            attr_lookup(g.attr_values(), "member"@),
        )),
{
    match group {
        Err(k) => Err(KanidmCall::GetGroup.fail(k)),
        Ok(None) => {
            let v: Vec<String> = Vec::new();
            assert(v.deep_view() =~= Seq::<Seq<char>>::empty());
            Ok(v)
        },
        Ok(Some(entry)) => match entry.attr("member") {
            Some(members) => {
                let v = members.clone();
                proof {
                    broadcast use vstd::std_specs::vec::vec_clone_deep_view_proof;

                    assert(v.deep_view() =~= members.deep_view());
                }
                Ok(v)
            },
            None => {
                let v: Vec<String> = Vec::new();
                assert(v.deep_view() =~= Seq::<Seq<char>>::empty());
                Ok(v)
            },
        },
    }
}

/// Whether a person has registered a passkey of either kind, given what
/// fetching the person gave: an unknown person has none.
pub fn webauthn_registered_from(person: Result<Option<Entry>, KanidmError>) -> (r: AppResult<bool>)
    ensures
        person matches Err(k) ==> (r matches Err(e) && wraps(
            e,
            "Failed to get person entry"@,
            AppError::Kanidm(k),
        )),
        person matches Ok(None) ==> r == Ok::<bool, AppError>(false),
        person matches Ok(Some(p)) ==> r == Ok::<bool, AppError>(
            present_with_values(attr_lookup(p.attr_values(), "passkey"@)) || present_with_values(
                attr_lookup(p.attr_values(), "attested_passkey"@),
            ),
        ),
{
    match person {
        Err(k) => Err(KanidmCall::GetPerson.fail(k)),
        Ok(None) => Ok(false),
        Ok(Some(entry)) => {
            let passkeys = entry.attr("passkey");
            let attested = entry.attr("attested_passkey");
            Ok(any_has_elements(passkeys, attested))
        },
    }
}

/// Whether `values` holds `wanted`.
fn holds_value(values: &Vec<String>, wanted: &str) -> (r: bool)
    ensures
        r == values.deep_view().contains(wanted@),
{
    let w = String::from_str(wanted);
    let n = values.len();
    let mut i: usize = 0;
    while i < n
        invariant
            n == values.len(),
            i <= n,
            w@ == wanted@,
            forall|j: int| 0 <= j < i ==> values.deep_view()[j] != wanted@,
        decreases n - i,
    {
        if values[i] == w {
            assert(values.deep_view()[i as int] == wanted@);
            return true;
        }
        i = i + 1;
    }
    proof {
        if values.deep_view().contains(wanted@) {
            let j = choose|j: int| 0 <= j < values.deep_view().len() && values.deep_view()[j] == wanted@;
            assert(values.deep_view()[j] != wanted@);
        }
    }
    false
}

/// Whether a person belongs to `group_id`, given what fetching the person
/// gave: an unknown person belongs to nothing.
pub fn membership_from(person: Result<Option<Entry>, KanidmError>, group_id: &str) -> (r: AppResult<
    bool,
>)
    ensures
        person matches Err(k) ==> (r matches Err(e) && wraps(
            e,
            "Failed to get person entry"@,
            AppError::Kanidm(k),
        )),
        person matches Ok(None) ==> r == Ok::<bool, AppError>(false),
        person matches Ok(Some(p)) ==> r == Ok::<bool, AppError>(
            values_or_none(attr_lookup(p.attr_values(), "memberof"@)).contains(group_id@),
        ),
{
    match person {
        Err(k) => Err(KanidmCall::GetPerson.fail(k)),
        Ok(None) => Ok(false),
        Ok(Some(entry)) => match entry.attr("memberof") {
            Some(groups) => Ok(holds_value(groups, group_id)),
            None => Ok(false),
        },
    }
}

} // verus!
