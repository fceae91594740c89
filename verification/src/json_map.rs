//! The body of a request: string members under distinct string keys.

use vstd::prelude::*;

verus! {

/// What a list of members amounts to as a mapping, a later member
/// replacing an earlier one under the same key.
pub open spec fn members_to_map(members: Seq<(Seq<char>, Seq<char>)>) -> Map<Seq<char>, Seq<char>>
    decreases members.len(),
{
    if members.len() == 0 {
        Map::empty()
    } else {
        members_to_map(members.drop_last()).insert(members.last().0, members.last().1)
    }
}

/// No key stands at two places of the list.
pub open spec fn distinct_keys(members: Seq<(Seq<char>, Seq<char>)>) -> bool {
    forall|i: int, j: int| 0 <= i < j < members.len() ==> members[i].0 != members[j].0
}

proof fn lemma_keys(members: Seq<(Seq<char>, Seq<char>)>, key: Seq<char>)
    ensures
        members_to_map(members).contains_key(key) <==> exists|i: int|
            0 <= i < members.len() && #[trigger] members[i].0 == key,
    decreases members.len(),
{
    if members.len() > 0 {
        let front = members.drop_last();
        lemma_keys(front, key);
        if members_to_map(members).contains_key(key) {
            if members.last().0 == key {
                assert(members[members.len() - 1].0 == key);
            } else {
                let i = choose|i: int| 0 <= i < front.len() && #[trigger] front[i].0 == key;
                assert(members[i].0 == key);
            }
        }
        if exists|i: int| 0 <= i < members.len() && #[trigger] members[i].0 == key {
            let i = choose|i: int| 0 <= i < members.len() && #[trigger] members[i].0 == key;
            if i < members.len() - 1 {
                assert(front[i].0 == key);
            }
        }
    }
}

proof fn lemma_member(members: Seq<(Seq<char>, Seq<char>)>, at: int)
    requires
        distinct_keys(members),
        0 <= at < members.len(),
    ensures
        members_to_map(members).contains_key(members[at].0),
        members_to_map(members)[members[at].0] == members[at].1,
    decreases members.len(),
{
    let front = members.drop_last();
    if at < members.len() - 1 {
        assert(distinct_keys(front)) by {
            assert forall|i: int, j: int| 0 <= i < j < front.len() implies front[i].0 != front[j].0 by {
                assert(members[i].0 != members[j].0);
            }
        }
        lemma_member(front, at);
        assert(front[at] == members[at]);
        assert(members[at].0 != members[members.len() - 1].0);
    }
}

proof fn lemma_count(members: Seq<(Seq<char>, Seq<char>)>)
    requires
        distinct_keys(members),
    ensures
        members_to_map(members).dom().finite(),
        members_to_map(members).dom().len() == members.len(),
    decreases members.len(),
{
    if members.len() > 0 {
        let front = members.drop_last();
        assert(distinct_keys(front)) by {
            assert forall|i: int, j: int| 0 <= i < j < front.len() implies front[i].0 != front[j].0 by {
                assert(members[i].0 != members[j].0);
            }
        }
        lemma_count(front);
        lemma_keys(front, members.last().0);
        if members_to_map(front).contains_key(members.last().0) {
            let i = choose|i: int| 0 <= i < front.len() && #[trigger] front[i].0 == members.last().0;
            assert(members[i].0 != members[members.len() - 1].0);
        }
        assert(members_to_map(members).dom() =~= members_to_map(front).dom().insert(
            members.last().0,
        ));
    } else {
        assert(members_to_map(members).dom() =~= Set::<Seq<char>>::empty());
    }
}

proof fn lemma_replace(members: Seq<(Seq<char>, Seq<char>)>, at: int, value: Seq<char>)
    requires
        distinct_keys(members),
        0 <= at < members.len(),
    ensures
        distinct_keys(members.update(at, (members[at].0, value))),
        members_to_map(members.update(at, (members[at].0, value))) == members_to_map(members).insert(
            members[at].0,
            value,
        ),
    decreases members.len(),
{
    let key = members[at].0;
    let changed = members.update(at, (key, value));
    let front = members.drop_last();
    assert(distinct_keys(changed)) by {
        assert forall|i: int, j: int| 0 <= i < j < changed.len() implies changed[i].0 != changed[j].0 by {
            assert(members[i].0 != members[j].0);
        }
    }
    if at == members.len() - 1 {
        assert(changed.drop_last() =~= front);
        assert(members_to_map(changed) =~= members_to_map(members).insert(key, value));
    } else {
        assert(distinct_keys(front)) by {
            assert forall|i: int, j: int| 0 <= i < j < front.len() implies front[i].0 != front[j].0 by {
                assert(members[i].0 != members[j].0);
            }
        }
        lemma_replace(front, at, value);
        assert(front[at] == members[at]);
        assert(changed.drop_last() =~= front.update(at, (key, value)));
        assert(changed.last() == members.last());
        assert(members[at].0 != members[members.len() - 1].0);
        assert(members_to_map(changed) =~= members_to_map(members).insert(key, value));
    }
}

/// The members of a JSON object whose values are all strings, as a request
/// body carries them. No key occurs twice.
#[derive(Debug)]
pub struct JsonMap {
    entries: Vec<(String, String)>,
}

impl View for JsonMap {
    type V = Map<Seq<char>, Seq<char>>;

    closed spec fn view(&self) -> Map<Seq<char>, Seq<char>> {
        members_to_map(self.entries.deep_view())
    }
}

impl JsonMap {
    #[verifier::type_invariant]
    spec fn well_formed(self) -> bool {
        distinct_keys(self.entries.deep_view())
    }

    /// A body without members.
    pub fn new() -> (body: JsonMap)
        ensures
            body@ == Map::<Seq<char>, Seq<char>>::empty(),
    {
        let body = JsonMap { entries: Vec::new() };
        assert(body.entries.deep_view() =~= Seq::empty());
        body
    }

    /// The number of members.
    pub fn len(&self) -> (count: usize)
        ensures
            self@.dom().finite(),
            count == self@.dom().len(),
    {
        proof {
            use_type_invariant(self);
            lemma_count(self.entries.deep_view());
        }
        self.entries.len()
    }

    /// Whether there is no member at all.
    pub fn is_empty(&self) -> (empty: bool)
        ensures
            empty == (self@ == Map::<Seq<char>, Seq<char>>::empty()),
    {
        proof {
            use_type_invariant(self);
            lemma_count(self.entries.deep_view());
            if self.entries.len() == 0 {
                assert(self@ =~= Map::<Seq<char>, Seq<char>>::empty());
            }
        }
        self.entries.len() == 0
    }

    fn position(&self, key: &String) -> (found: Option<usize>)
        ensures
            match found {
                Some(at) => at < self.entries.len() && self.entries[at as int].0@ == key@,
                None => forall|i: int| 0 <= i < self.entries.len() ==> self.entries[i].0@ != key@,
            },
    {
        let mut at: usize = 0;
        while at < self.entries.len()
            invariant
                at <= self.entries.len(),
                forall|i: int| 0 <= i < at ==> self.entries[i].0@ != key@,
            decreases self.entries.len() - at,
        {
            if self.entries[at].0 == *key {
                return Some(at);
            }
            at += 1;
        }
        None
    }

    /// The value under `key`, if the body has that member.
    pub fn get(&self, key: &str) -> (value: Option<&str>)
        ensures
            match value {
                Some(text) => self@.contains_key(key@) && self@[key@] == text@,
                None => !self@.contains_key(key@),
            },
    {
        let owned = key.to_owned();
        let found = self.position(&owned);
        proof {
            use_type_invariant(self);
            lemma_keys(self.entries.deep_view(), key@);
        }
        match found {
            Some(at) => {
                proof {
                    lemma_member(self.entries.deep_view(), at as int);
                }
                Some(self.entries[at].1.as_str())
            },
            None => {
                assert forall|i: int| 0 <= i < self.entries.deep_view().len() implies (
                #[trigger] self.entries.deep_view()[i]).0 != key@ by {
                    assert(self.entries[i].0@ != key@);
                }
                None
            },
        }
    }

    /// Whether the body has a member under `key`.
    pub fn contains_key(&self, key: &str) -> (present: bool)
        ensures
            present == self@.contains_key(key@),
    {
        self.get(key).is_some()
    }

    /// Puts `value` under `key`, in place of the value that stood there, and
    /// returns the value it replaced.
    pub fn insert(&mut self, key: &str, value: &str) -> (previous: Option<String>)
        ensures
            final(self)@ == old(self)@.insert(key@, value@),
            match previous {
                Some(text) => old(self)@.contains_key(key@) && old(self)@[key@] == text@,
                None => !old(self)@.contains_key(key@),
            },
    {
        let owned = key.to_owned();
        let found = self.position(&owned);
        let ghost before = self.entries.deep_view();
        proof {
            use_type_invariant(&*self);
            lemma_keys(before, key@);
        }
        match found {
            Some(at) => {
                proof {
                    lemma_member(before, at as int);
                    lemma_replace(before, at as int, value@);
                    assert(before[at as int].0 == key@);
                }
                let previous = self.entries[at].1.clone();
                let mut entries: Vec<(String, String)> = Vec::new();
                core::mem::swap(&mut self.entries, &mut entries);
                entries.set(at, (owned, value.to_owned()));
                assert(entries.deep_view() =~= before.update(at as int, (key@, value@)));
                self.entries = entries;
                Some(previous)
            },
            None => {
                assert forall|i: int| 0 <= i < before.len() implies (#[trigger] before[i]).0 != key@ by {
                    assert(self.entries[i].0@ != key@);
                }
                let mut entries: Vec<(String, String)> = Vec::new();
                core::mem::swap(&mut self.entries, &mut entries);
                entries.push((owned, value.to_owned()));
                assert(entries.deep_view() =~= before.push((key@, value@)));
                assert(before.push((key@, value@)).drop_last() =~= before);
                self.entries = entries;
                None
            },
        }
    }

    /// The members, each once, in the order in which their keys first came in.
    pub fn members(&self) -> (list: Vec<(String, String)>)
        ensures
            self@.dom().finite(),
            list.len() == self@.dom().len(),
            forall|i: int|
                0 <= i < list.len() ==> self@.contains_pair((#[trigger] list[i]).0@, list[i].1@),
            forall|i: int, j: int| 0 <= i < j < list.len() ==> list[i].0@ != list[j].0@,
    {
        let list = copy_members(&self.entries);
        proof {
            use_type_invariant(self);
            lemma_count(self.entries.deep_view());
            assert forall|i: int| 0 <= i < list.len() implies self@.contains_pair(
                (#[trigger] list[i]).0@,
                list[i].1@,
            ) by {
                lemma_member(self.entries.deep_view(), i);
                assert(list.deep_view()[i] == self.entries.deep_view()[i]);
            }
            assert forall|i: int, j: int| 0 <= i < j < list.len() implies list[i].0@ != list[j].0@ by {
                assert(list.deep_view()[i] == self.entries.deep_view()[i]);
                assert(list.deep_view()[j] == self.entries.deep_view()[j]);
            }
        }
        list
    }
}

fn copy_members(entries: &Vec<(String, String)>) -> (copy: Vec<(String, String)>)
    ensures
        copy.deep_view() == entries.deep_view(),
{
    let mut copy: Vec<(String, String)> = Vec::new();
    let mut at: usize = 0;
    while at < entries.len()
        invariant
            at <= entries.len(),
            copy.len() == at,
            forall|i: int| 0 <= i < at ==> copy[i].0@ == entries[i].0@ && copy[i].1@ == entries[i].1@,
        decreases entries.len() - at,
    {
        copy.push((entries[at].0.clone(), entries[at].1.clone()));
        at += 1;
    }
    assert(copy.deep_view() =~= entries.deep_view());
    copy
}

impl Clone for JsonMap {
    fn clone(&self) -> (copy: JsonMap)
        ensures
            copy@ == self@,
    {
        let entries = copy_members(&self.entries);
        proof {
            use_type_invariant(self);
        }
        JsonMap { entries }
    }
}

/// Something that can be sent as the body of a call.
pub trait Payload {
    /// The members of the JSON object that stands for this value.
    fn json(&self) -> JsonMap;
}

} // verus!
