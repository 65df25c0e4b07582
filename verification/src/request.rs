use crate::error::MalformedAppData;
use vstd::prelude::*;

verus! {

/// One member of a JSON object: a key and, where a string stands under it,
/// that string.
#[derive(Debug)]
pub struct Member {
    pub key: String,
    /// `None` where the member holds anything but a string.
    pub text: Option<String>,
}

/// A `Member` over sequences of characters.
pub struct MemberView {
    pub key: Seq<char>,
    pub text: Option<Seq<char>>,
}

/// The characters of an optional string.
pub open spec fn text(s: Option<String>) -> Option<Seq<char>> {
    match s {
        Some(s) => Some(s@),
        None => None,
    }
}

impl View for Member {
    type V = MemberView;

    open spec fn view(&self) -> MemberView {
        MemberView { key: self.key@, text: text(self.text) }
    }
}

impl Clone for Member {
    fn clone(&self) -> (r: Self)
        ensures
            r@ == self@,
    {
        Member {
            key: self.key.clone(),
            text: match &self.text {
                Some(t) => Some(t.clone()),
                None => None,
            },
        }
    }
}

impl PartialEq for Member {
    fn eq(&self, other: &Self) -> (r: bool) {
        self.key == other.key && match (&self.text, &other.text) {
            (Some(a), Some(b)) => *a == *b,
            (None, None) => true,
            _ => false,
        }
    }
}

impl Eq for Member {

}

impl vstd::std_specs::cmp::PartialEqSpecImpl for Member {
    open spec fn obeys_eq_spec() -> bool {
        true
    }

    /// Two members are equal where their keys hold the same characters and
    /// they hold the same string, or neither holds one.
    open spec fn eq_spec(&self, other: &Self) -> bool {
        self@ == other@
    }
}

/// The body of a request, as far as an order reads it.
#[derive(Debug)]
pub enum Request {
    /// A JSON object: its members in the order written.
    Object(Vec<Member>),
    /// Any other JSON value.
    Other,
}

/// A `Request` over sequences of characters.
pub enum RequestView {
    Object(Seq<MemberView>),
    Other,
}

/// The members of an object, each by its view.
pub open spec fn views(members: Seq<Member>) -> Seq<MemberView> {
    members.map_values(|m: Member| m@)
}

impl View for Request {
    type V = RequestView;

    open spec fn view(&self) -> RequestView {
        match self {
            Request::Object(members) => RequestView::Object(views(members@)),
            Request::Other => RequestView::Other,
        }
    }
}

impl Clone for Request {
    fn clone(&self) -> (r: Self)
        ensures
            r@ == self@,
    {
        match self {
            Request::Other => Request::Other,
            Request::Object(members) => {
                let mut copy: Vec<Member> = Vec::new();
                let mut i: usize = 0;
                while i < members.len()
                    invariant
                        i <= members.len(),
                        copy.len() == i,
                        forall|j: int| 0 <= j < i ==> copy@[j]@ == members@[j]@,
                    decreases members.len() - i,
                {
                    copy.push(members[i].clone());
                    i += 1;
                }
                assert(views(copy@) =~= views(members@));
                Request::Object(copy)
            },
        }
    }
}

impl PartialEq for Request {
    fn eq(&self, other: &Self) -> (r: bool) {
        match (self, other) {
            (Request::Other, Request::Other) => true,
            (Request::Object(ours), Request::Object(theirs)) => {
                if ours.len() != theirs.len() {
                    assert(views(ours@).len() != views(theirs@).len());
                    return false;
                }
                let mut i: usize = 0;
                while i < ours.len()
                    invariant
                        i <= ours.len(),
                        ours.len() == theirs.len(),
                        self@ == RequestView::Object(views(ours@)),
                        other@ == RequestView::Object(views(theirs@)),
                        forall|j: int| 0 <= j < i ==> ours@[j]@ == theirs@[j]@,
                    decreases ours.len() - i,
                {
                    if ours[i] != theirs[i] {
                        assert(views(ours@)[i as int] != views(theirs@)[i as int]);
                        return false;
                    }
                    i += 1;
                }
                assert(views(ours@) =~= views(theirs@));
                true
            },
            _ => false,
        }
    }
}

impl Eq for Request {

}

impl vstd::std_specs::cmp::PartialEqSpecImpl for Request {
    open spec fn obeys_eq_spec() -> bool {
        true
    }

    /// Two requests are equal where neither is an object, or both are
    /// objects of equal members in the same order.
    open spec fn eq_spec(&self, other: &Self) -> bool {
        self@ == other@
    }
}

/// The key of the token sold.
pub const SELL_TOKEN: &'static str = "sellToken";

/// The key of the token bought.
pub const BUY_TOKEN: &'static str = "buyToken";

/// The key of the application data. Where a request holds the hash alone,
/// the hash is written under this key too.
pub const APP_DATA: &'static str = "appData";

/// The key of the hash expected of the application data.
pub const APP_DATA_HASH: &'static str = "appDataHash";

/// Whether `key` is one of the four keys of an order.
pub open spec fn known(key: Seq<char>) -> bool {
    key == SELL_TOKEN@ || key == BUY_TOKEN@ || key == APP_DATA@ || key == APP_DATA_HASH@
}

/// Whether every member stands under a key of an order.
pub open spec fn all_known(members: Seq<MemberView>) -> bool {
    forall|i: int| 0 <= i < members.len() ==> known(#[trigger] members[i].key)
}

/// Whether the member at place `i` stands under `key`.
pub open spec fn at(members: Seq<MemberView>, key: Seq<char>, i: int) -> bool {
    0 <= i < members.len() && members[i].key == key
}

/// Whether no member stands under `key`.
pub open spec fn absent(members: Seq<MemberView>, key: Seq<char>) -> bool {
    forall|i: int| !at(members, key, i)
}

/// Whether the member at place `i` is the only one under `key`.
pub open spec fn single(members: Seq<MemberView>, key: Seq<char>, i: int) -> bool {
    at(members, key, i) && forall|j: int| at(members, key, j) ==> j == i
}

/// What an object holds under `key`: nothing, where no member has that key;
/// the string, where exactly one member has it and holds a string; and
/// otherwise, with the key twice or with something else under it, the object
/// is malformed.
pub open spec fn entry(members: Seq<MemberView>, key: Seq<char>) -> Result<
    Option<Seq<char>>,
    MalformedAppData,
> {
    if absent(members, key) {
        Ok(None)
    } else {
        let i = choose|i: int| at(members, key, i);
        if single(members, key, i) && members[i].text is Some {
            Ok(members[i].text)
        } else {
            Err(MalformedAppData)
        }
    }
}

/// The characters of what a lookup gave.
pub open spec fn entry_view(r: Result<Option<String>, MalformedAppData>) -> Result<
    Option<Seq<char>>,
    MalformedAppData,
> {
    match r {
        Ok(Some(t)) => Ok(Some(t@)),
        Ok(None) => Ok(None),
        Err(e) => Err(e),
    }
}

/// An object with its only member under `key` at place `i` holds under that
/// key what this member holds, if that is a string, and is malformed if not.
pub proof fn lemma_entry_single(members: Seq<MemberView>, key: Seq<char>, i: int)
    requires
        single(members, key, i),
    ensures
        entry(members, key) == match members[i].text {
            Some(t) => Ok::<Option<Seq<char>>, MalformedAppData>(Some(t)),
            None => Err(MalformedAppData),
        },
{
    let c = choose|c: int| at(members, key, c);
    assert(at(members, key, c));
}

/// An object with members under `key` at two places is malformed.
pub proof fn lemma_entry_twice(members: Seq<MemberView>, key: Seq<char>, i: int, j: int)
    requires
        at(members, key, i),
        at(members, key, j),
        i != j,
    ensures
        entry(members, key) is Err,
{
    let c = choose|c: int| at(members, key, c);
    assert(at(members, key, c));
    assert(!single(members, key, c));
}

/// Looks `key` up among the members of an object.
pub fn find(members: &Vec<Member>, key: &String) -> (r: Result<Option<String>, MalformedAppData>)
    ensures
        entry_view(r) == entry(views(members@), key@),
{
    let ghost all = views(members@);
    let mut found: Option<usize> = None;
    let mut i: usize = 0;
    while i < members.len()
        invariant
            i <= members.len(),
            all == views(members@),
            match found {
                None => forall|j: int| 0 <= j < i ==> !at(all, key@, j),
                Some(f) => f < i && at(all, key@, f as int) && forall|j: int|
                    0 <= j < i && at(all, key@, j) ==> j == f,
            },
        decreases members.len() - i,
    {
        if members[i].key == *key {
            if let Some(f) = found {
                proof {
                    lemma_entry_twice(all, key@, f as int, i as int);
                }
                return Err(MalformedAppData);
            }
            found = Some(i);
        }
        i += 1;
    }
    match found {
        None => Ok(None),
        Some(f) => {
            proof {
                lemma_entry_single(all, key@, f as int);
            }
            match &members[f].text {
                Some(t) => Ok(Some(t.clone())),
                None => Err(MalformedAppData),
            }
        },
    }
}

/// No two of the four keys of an order are the same.
pub proof fn lemma_keys_differ()
    ensures
        SELL_TOKEN@ != BUY_TOKEN@,
        SELL_TOKEN@ != APP_DATA@,
        SELL_TOKEN@ != APP_DATA_HASH@,
        BUY_TOKEN@ != APP_DATA@,
        BUY_TOKEN@ != APP_DATA_HASH@,
        APP_DATA@ != APP_DATA_HASH@,
{
    reveal_strlit("sellToken");
    reveal_strlit("buyToken");
    reveal_strlit("appData");
    reveal_strlit("appDataHash");
    assert(SELL_TOKEN@.len() == 9);
    assert(BUY_TOKEN@.len() == 8);
    assert(APP_DATA@.len() == 7);
    assert(APP_DATA_HASH@.len() == 11);
}

/// Whether every member of an object stands under a key of an order.
pub fn only_known(members: &Vec<Member>) -> (r: bool)
    ensures
        r == all_known(views(members@)),
{
    let sell_token = SELL_TOKEN.to_owned();
    let buy_token = BUY_TOKEN.to_owned();
    let app_data = APP_DATA.to_owned();
    let app_data_hash = APP_DATA_HASH.to_owned();
    let ghost all = views(members@);
    let mut i: usize = 0;
    while i < members.len()
        invariant
            i <= members.len(),
            all == views(members@),
            sell_token@ == SELL_TOKEN@,
            buy_token@ == BUY_TOKEN@,
            app_data@ == APP_DATA@,
            app_data_hash@ == APP_DATA_HASH@,
            forall|j: int| 0 <= j < i ==> known(#[trigger] all[j].key),
        decreases members.len() - i,
    {
        let key = &members[i].key;
        if !(*key == sell_token || *key == buy_token || *key == app_data || *key
            == app_data_hash) {
            assert(!known(all[i as int].key));
            return false;
        }
        i += 1;
    }
    true
}

} // verus!
