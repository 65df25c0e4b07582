use crate::error::MalformedAppData;
use crate::request::{
    absent, all_known, entry, find, lemma_entry_single, lemma_keys_differ, only_known, single, text,
    views, Member, MemberView, Request, RequestView, APP_DATA, APP_DATA_HASH,
};
use vstd::prelude::*;

verus! {

/// The string encoding of a JSON object representing some `appData`.
#[derive(Debug)]
pub enum OrderCreationAppData {
    /// Hash is inferred from full app data and validated against expectation.
    Both { full: String, expected: String },
    /// Backward compatible app data hash.
    Hash { hash: String },
    /// Hash is inferred from full app data.
    Full { full: String },
}

/// What an `OrderCreationAppData` stands for: the same three cases over
/// sequences of characters.
pub enum AppDataView {
    Both { full: Seq<char>, expected: Seq<char> },
    Hash { hash: Seq<char> },
    Full { full: Seq<char> },
}

impl View for OrderCreationAppData {
    type V = AppDataView;

    open spec fn view(&self) -> AppDataView {
        match self {
            OrderCreationAppData::Both { full, expected } => AppDataView::Both {
                full: full@,
                expected: expected@,
            },
            OrderCreationAppData::Hash { hash } => AppDataView::Hash { hash: hash@ },
            OrderCreationAppData::Full { full } => AppDataView::Full { full: full@ },
        }
    }
}

/// The encoding that two optional strings resolve to: `app_data` is what a
/// request holds under `appData`, `app_data_hash` what it holds under
/// `appDataHash`.
///
/// With both, the full data comes with the hash expected of it. With the
/// data alone, the hash is left to be inferred. Without the data, the hash
/// stands alone, and is empty where the request gave none.
pub open spec fn resolved(
    app_data: Option<Seq<char>>,
    app_data_hash: Option<Seq<char>>,
) -> AppDataView {
    match (app_data, app_data_hash) {
        (Some(full), Some(expected)) => AppDataView::Both { full, expected },
        (Some(full), None) => AppDataView::Full { full },
        (None, Some(hash)) => AppDataView::Hash { hash },
        (None, None) => AppDataView::Hash { hash: Seq::empty() },
    }
}

/// The encoding that a request resolves to.
///
/// A request that is no object is malformed, and so is an object that holds
/// `appData` or `appDataHash` twice, or something other than a string under
/// one of them. Read strictly, an object with a key that an order does not
/// have is malformed too; otherwise such members are passed over. What is
/// left resolves by the strings under the two keys.
pub open spec fn request_app_data(request: RequestView, strict: bool) -> Result<
    AppDataView,
    MalformedAppData,
> {
    match request {
        RequestView::Other => Err(MalformedAppData),
        RequestView::Object(members) => {
            if strict && !all_known(members) {
                Err(MalformedAppData)
            } else {
                match (entry(members, APP_DATA@), entry(members, APP_DATA_HASH@)) {
                    (Ok(app_data), Ok(app_data_hash)) => Ok(resolved(app_data, app_data_hash)),
                    _ => Err(MalformedAppData),
                }
            }
        },
    }
}

/// The members that an encoding is written as: the full data, or else the
/// hash, under `appData`, and after it the expected hash under
/// `appDataHash` where the encoding has both.
pub open spec fn app_data_members(app_data: AppDataView) -> Seq<MemberView> {
    match app_data {
        AppDataView::Both { full, expected } => seq![
            MemberView { key: APP_DATA@, text: Some(full) },
            MemberView { key: APP_DATA_HASH@, text: Some(expected) },
        ],
        AppDataView::Hash { hash } => seq![MemberView { key: APP_DATA@, text: Some(hash) }],
        AppDataView::Full { full } => seq![MemberView { key: APP_DATA@, text: Some(full) }],
    }
}

/// The view of what resolving a request gave.
pub open spec fn resolution_view(r: Result<OrderCreationAppData, MalformedAppData>) -> Result<
    AppDataView,
    MalformedAppData,
> {
    match r {
        Ok(app_data) => Ok(app_data@),
        Err(e) => Err(e),
    }
}

impl OrderCreationAppData {
    /// Picks the encoding from what a request holds under `appData` and
    /// under `appDataHash`.
    pub fn resolve(app_data: Option<String>, app_data_hash: Option<String>) -> (r: Self)
        ensures
            r@ == resolved(text(app_data), text(app_data_hash)),
            app_data is Some && app_data_hash is Some ==> r@ == (AppDataView::Both {
                full: app_data->0@,
                expected: app_data_hash->0@,
            }),
            app_data is Some && app_data_hash is None ==> r@ == (AppDataView::Full {
                full: app_data->0@,
            }),
            app_data is None && app_data_hash is Some ==> r@ == (AppDataView::Hash {
                hash: app_data_hash->0@,
            }),
            app_data is None && app_data_hash is None ==> r@ == (AppDataView::Hash {
                hash: Seq::<char>::empty(),
            }),
    {
        match app_data {
            Some(full) => match app_data_hash {
                Some(expected) => OrderCreationAppData::Both { full, expected },
                None => OrderCreationAppData::Full { full },
            },
            None => match app_data_hash {
                Some(hash) => OrderCreationAppData::Hash { hash },
                None => OrderCreationAppData::Hash { hash: String::new() },
            },
        }
    }

    /// Resolves the application data of a request, strictly or not.
    pub fn from_request(request: &Request, strict: bool) -> (r: Result<Self, MalformedAppData>)
        ensures
            resolution_view(r) == request_app_data(request@, strict),
    {
        match request {
            Request::Other => Err(MalformedAppData),
            Request::Object(members) => {
                if strict && !only_known(members) {
                    return Err(MalformedAppData);
                }
                let app_data = match find(members, &APP_DATA.to_owned()) {
                    Ok(found) => found,
                    Err(e) => { return Err(e); },
                };
                let app_data_hash = match find(members, &APP_DATA_HASH.to_owned()) {
                    Ok(found) => found,
                    Err(e) => { return Err(e); },
                };
                Ok(OrderCreationAppData::resolve(app_data, app_data_hash))
            },
        }
    }

    /// The members that this encoding is written as.
    pub fn to_members(&self) -> (r: Vec<Member>)
        ensures
            views(r@) == app_data_members(self@),
    {
        let mut members: Vec<Member> = Vec::new();
        match self {
            OrderCreationAppData::Both { full, expected } => {
                members.push(Member { key: APP_DATA.to_owned(), text: Some(full.clone()) });
                members.push(
                    Member { key: APP_DATA_HASH.to_owned(), text: Some(expected.clone()) },
                );
            },
            OrderCreationAppData::Hash { hash } => {
                members.push(Member { key: APP_DATA.to_owned(), text: Some(hash.clone()) });
            },
            OrderCreationAppData::Full { full } => {
                members.push(Member { key: APP_DATA.to_owned(), text: Some(full.clone()) });
            },
        }
        assert(views(members@) =~= app_data_members(self@));
        members
    }
}

/// A request that holds a string under `appData` and a string under
/// `appDataHash`, each key once, resolves to both: the first as the full
/// data, the second as the hash expected of it, each as it was given.
pub proof fn lemma_data_and_hash_give_both(
    members: Seq<MemberView>,
    strict: bool,
    i: int,
    j: int,
)
    requires
        single(members, APP_DATA@, i),
        members[i].text is Some,
        single(members, APP_DATA_HASH@, j),
        members[j].text is Some,
        strict ==> all_known(members),
    ensures
        request_app_data(RequestView::Object(members), strict) == Ok::<
            AppDataView,
            MalformedAppData,
        >(AppDataView::Both { full: members[i].text->0, expected: members[j].text->0 }),
{
    lemma_entry_single(members, APP_DATA@, i);
    lemma_entry_single(members, APP_DATA_HASH@, j);
}

/// A request that holds a string under `appData`, once, and nothing under
/// `appDataHash` resolves to the full data alone.
pub proof fn lemma_data_alone_gives_full(members: Seq<MemberView>, strict: bool, i: int)
    requires
        single(members, APP_DATA@, i),
        members[i].text is Some,
        absent(members, APP_DATA_HASH@),
        strict ==> all_known(members),
    ensures
        request_app_data(RequestView::Object(members), strict) == Ok::<
            AppDataView,
            MalformedAppData,
        >(AppDataView::Full { full: members[i].text->0 }),
{
    lemma_entry_single(members, APP_DATA@, i);
}

/// A request that holds nothing under `appData` and a string under
/// `appDataHash`, once, resolves to that hash alone.
pub proof fn lemma_hash_alone_gives_hash(members: Seq<MemberView>, strict: bool, j: int)
    requires
        absent(members, APP_DATA@),
        single(members, APP_DATA_HASH@, j),
        members[j].text is Some,
        strict ==> all_known(members),
    ensures
        request_app_data(RequestView::Object(members), strict) == Ok::<
            AppDataView,
            MalformedAppData,
        >(AppDataView::Hash { hash: members[j].text->0 }),
{
    lemma_entry_single(members, APP_DATA_HASH@, j);
}

/// A request that holds nothing under `appData` and nothing under
/// `appDataHash` resolves to the empty hash alone.
pub proof fn lemma_neither_gives_empty_hash(members: Seq<MemberView>, strict: bool)
    requires
        absent(members, APP_DATA@),
        absent(members, APP_DATA_HASH@),
        strict ==> all_known(members),
    ensures
        request_app_data(RequestView::Object(members), strict) == Ok::<
            AppDataView,
            MalformedAppData,
        >(AppDataView::Hash { hash: Seq::<char>::empty() }),
{
}

/// An encoding with the full data, written as members and resolved again,
/// strictly or not, is the encoding that was written.
pub proof fn lemma_written_data_resolves_to_itself(app_data: AppDataView, strict: bool)
    requires
        !(app_data is Hash),
    ensures
        request_app_data(RequestView::Object(app_data_members(app_data)), strict) == Ok::<
            AppDataView,
            MalformedAppData,
        >(app_data),
{
    let members = app_data_members(app_data);
    lemma_keys_differ();
    assert(single(members, APP_DATA@, 0));
    lemma_entry_single(members, APP_DATA@, 0);
    if app_data is Both {
        assert(single(members, APP_DATA_HASH@, 1));
        lemma_entry_single(members, APP_DATA_HASH@, 1);
    } else {
        assert(absent(members, APP_DATA_HASH@));
    }
}

/// A hash alone is written under `appData`, so written as members and
/// resolved again, strictly or not, it comes back as full data of the same
/// characters.
pub proof fn lemma_written_hash_resolves_to_full(hash: Seq<char>, strict: bool)
    ensures
        request_app_data(
            RequestView::Object(app_data_members(AppDataView::Hash { hash })),
            strict,
        ) == Ok::<AppDataView, MalformedAppData>(AppDataView::Full { full: hash }),
{
    let members = app_data_members(AppDataView::Hash { hash });
    lemma_keys_differ();
    assert(single(members, APP_DATA@, 0));
    lemma_entry_single(members, APP_DATA@, 0);
    assert(absent(members, APP_DATA_HASH@));
}

impl Default for OrderCreationAppData {
    /// The hash alone, and empty.
    fn default() -> (r: Self)
        ensures
            r@ == (AppDataView::Hash { hash: Seq::<char>::empty() }),
    {
        OrderCreationAppData::Hash { hash: String::new() }
    }
}

impl Clone for OrderCreationAppData {
    fn clone(&self) -> (r: Self)
        ensures
            r@ == self@,
    {
        match self {
            OrderCreationAppData::Both { full, expected } => OrderCreationAppData::Both {
                full: full.clone(),
                expected: expected.clone(),
            },
            OrderCreationAppData::Hash { hash } => OrderCreationAppData::Hash { hash: hash.clone() },
            OrderCreationAppData::Full { full } => OrderCreationAppData::Full { full: full.clone() },
        }
    }
}

impl PartialEq for OrderCreationAppData {
    fn eq(&self, other: &Self) -> (r: bool) {
        match (self, other) {
            (
                OrderCreationAppData::Both { full: f1, expected: e1 },
                OrderCreationAppData::Both { full: f2, expected: e2 },
            ) => *f1 == *f2 && *e1 == *e2,
            (OrderCreationAppData::Hash { hash: h1 }, OrderCreationAppData::Hash { hash: h2 }) => {
                *h1 == *h2
            },
            (OrderCreationAppData::Full { full: f1 }, OrderCreationAppData::Full { full: f2 }) => {
                *f1 == *f2
            },
            _ => false,
        }
    }
}

impl Eq for OrderCreationAppData {

}

impl vstd::std_specs::cmp::PartialEqSpecImpl for OrderCreationAppData {
    open spec fn obeys_eq_spec() -> bool {
        true
    }

    /// Two encodings are equal where they stand for the same case over the
    /// same characters.
    open spec fn eq_spec(&self, other: &Self) -> bool {
        self@ == other@
    }
}

} // verus!
