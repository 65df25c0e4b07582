use crate::app_data::{
    app_data_members, request_app_data, AppDataView, OrderCreationAppData,
};
use crate::error::MalformedAppData;
use crate::request::{
    absent, entry, find, lemma_entry_single, lemma_keys_differ, single, views, Member, MemberView,
    Request, RequestView, APP_DATA, APP_DATA_HASH, BUY_TOKEN, SELL_TOKEN,
};
use vstd::prelude::*;

verus! {

/// An order as provided to the POST order endpoint.
#[derive(Debug)]
pub struct OrderCreation {
    /// Address of token sold.
    pub sell_token: String,
    /// Address of token bought.
    pub buy_token: String,
    /// The string encoding of a JSON object representing some `appData`.
    pub app_data: OrderCreationAppData,
}

/// An `OrderCreation` over sequences of characters.
pub struct OrderCreationView {
    pub sell_token: Seq<char>,
    pub buy_token: Seq<char>,
    pub app_data: AppDataView,
}

impl View for OrderCreation {
    type V = OrderCreationView;

    open spec fn view(&self) -> OrderCreationView {
        OrderCreationView {
            sell_token: self.sell_token@,
            buy_token: self.buy_token@,
            app_data: self.app_data@,
        }
    }
}

/// The order that a request holds.
///
/// The application data resolves as it does by itself, and a request that is
/// malformed there is malformed here. Each token address stands once, as a
/// string, under its key: without that the request is malformed as well.
pub open spec fn request_order(request: RequestView, strict: bool) -> Result<
    OrderCreationView,
    MalformedAppData,
> {
    match (request, request_app_data(request, strict)) {
        (RequestView::Object(members), Ok(app_data)) => {
            match (entry(members, SELL_TOKEN@), entry(members, BUY_TOKEN@)) {
                (Ok(Some(sell_token)), Ok(Some(buy_token))) => Ok(
                    OrderCreationView { sell_token, buy_token, app_data },
                ),
                _ => Err(MalformedAppData),
            }
        },
        _ => Err(MalformedAppData),
    }
}

/// The request that an order is written as: an object with the two token
/// addresses, and after them the members of the application data.
pub open spec fn order_request(order: OrderCreationView) -> RequestView {
    RequestView::Object(
        seq![
            MemberView { key: SELL_TOKEN@, text: Some(order.sell_token) },
            MemberView { key: BUY_TOKEN@, text: Some(order.buy_token) },
        ] + app_data_members(order.app_data),
    )
}

/// The view of what reading a request gave.
pub open spec fn order_view(r: Result<OrderCreation, MalformedAppData>) -> Result<
    OrderCreationView,
    MalformedAppData,
> {
    match r {
        Ok(order) => Ok(order@),
        Err(e) => Err(e),
    }
}

impl OrderCreation {
    /// Reads an order from a request, strictly or not.
    pub fn from_request(request: &Request, strict: bool) -> (r: Result<Self, MalformedAppData>)
        ensures
            order_view(r) == request_order(request@, strict),
    {
        let app_data = match OrderCreationAppData::from_request(request, strict) {
            Ok(app_data) => app_data,
            Err(e) => { return Err(e); },
        };
        match request {
            Request::Other => Err(MalformedAppData),
            Request::Object(members) => {
                let sell_token = match find(members, &SELL_TOKEN.to_owned()) {
                    Ok(Some(token)) => token,
                    _ => { return Err(MalformedAppData); },
                };
                let buy_token = match find(members, &BUY_TOKEN.to_owned()) {
                    Ok(Some(token)) => token,
                    _ => { return Err(MalformedAppData); },
                };
                Ok(OrderCreation { sell_token, buy_token, app_data })
            },
        }
    }

    /// The request that this order is written as.
    pub fn to_request(&self) -> (r: Request)
        ensures
            r@ == order_request(self@),
    {
        let mut members: Vec<Member> = Vec::new();
        members.push(Member { key: SELL_TOKEN.to_owned(), text: Some(self.sell_token.clone()) });
        members.push(Member { key: BUY_TOKEN.to_owned(), text: Some(self.buy_token.clone()) });
        let mut rest = self.app_data.to_members();
        members.append(&mut rest);
        assert(views(members@) =~= order_request(self@)->Object_0);
        Request::Object(members)
    }
}

/// An order whose application data has the full data, written as a request
/// and read again, strictly or not, is the order that was written.
pub proof fn lemma_written_order_reads_as_itself(order: OrderCreationView, strict: bool)
    requires
        !(order.app_data is Hash),
    ensures
        request_order(order_request(order), strict) == Ok::<OrderCreationView, MalformedAppData>(
            order,
        ),
{
    let members = order_request(order)->Object_0;
    lemma_keys_differ();
    assert(single(members, SELL_TOKEN@, 0));
    lemma_entry_single(members, SELL_TOKEN@, 0);
    assert(single(members, BUY_TOKEN@, 1));
    lemma_entry_single(members, BUY_TOKEN@, 1);
    assert(single(members, APP_DATA@, 2));
    lemma_entry_single(members, APP_DATA@, 2);
    if order.app_data is Both {
        assert(single(members, APP_DATA_HASH@, 3));
        lemma_entry_single(members, APP_DATA_HASH@, 3);
    } else {
        assert(absent(members, APP_DATA_HASH@));
    }
}

impl Default for OrderCreation {
    /// Both addresses empty, with the application data's default.
    fn default() -> (r: Self)
        ensures
            r@ == (OrderCreationView {
                sell_token: Seq::<char>::empty(),
                buy_token: Seq::<char>::empty(),
                app_data: AppDataView::Hash { hash: Seq::<char>::empty() },
            }),
    {
        OrderCreation {
            sell_token: String::new(),
            buy_token: String::new(),
            app_data: OrderCreationAppData::default(),
        }
    }
}

impl Clone for OrderCreation {
    fn clone(&self) -> (r: Self)
        ensures
            r@ == self@,
    {
        OrderCreation {
            sell_token: self.sell_token.clone(),
            buy_token: self.buy_token.clone(),
            app_data: self.app_data.clone(),
        }
    }
}

impl PartialEq for OrderCreation {
    fn eq(&self, other: &Self) -> (r: bool) {
        self.sell_token == other.sell_token && self.buy_token == other.buy_token && self.app_data
            == other.app_data
    }
}

impl Eq for OrderCreation {

}

impl vstd::std_specs::cmp::PartialEqSpecImpl for OrderCreation {
    open spec fn obeys_eq_spec() -> bool {
        true
    }

    /// Two orders are equal where their addresses hold the same characters
    /// and their application data are equal.
    open spec fn eq_spec(&self, other: &Self) -> bool {
        self@ == other@
    }
}

} // verus!
