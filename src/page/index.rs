use vstd::prelude::*;
use vstd::string::*;

use crate::fetch::{FetchError, FetchState, Fetcher};

verus! {

/// What the item page is mounted with.
#[derive(Debug, Clone, PartialEq, Eq)]
pub struct Props {
    pub id: String,
}

/// One line of a receipt.
#[derive(Debug, Clone, PartialEq, Eq)]
pub struct Item {
    pub item_name: String,
    pub item_price: String,
}

/// The payload of the items endpoint.
#[derive(Debug, Clone, PartialEq, Eq)]
pub struct ResponseData {
    pub data: Vec<Item>,
    /// The total, where the endpoint reports one.
    pub sum: Option<i32>,
}

/// The completion of a request, with the token it was issued under.
#[derive(Debug)]
pub enum Msg {
    SuccessFetchData(u64, Result<ResponseData, FetchError>),
}

/// A request that the page asks to be issued.
#[derive(Debug, Clone, PartialEq, Eq)]
pub struct Request {
    pub token: u64,
    pub url: String,
}

/// What the page shows: exactly one of these at a time.
#[derive(Debug, Clone, PartialEq, Eq)]
pub enum Screen {
    /// Nothing has been requested.
    Trigger,
    /// A request is outstanding.
    Fetching,
    /// The rows of the accepted payload, one per item, and its total.
    Rows { rows: Vec<String>, sum: Option<i32> },
    /// The text of the last failure.
    Message { text: String },
}

/// The endpoint that lists the items of a receipt, before the id.
pub open spec fn items_endpoint() -> Seq<char> {
    "https://receipten-backend.ojisan.vercel.app/api/get-items?id="@
}

/// The address that fetches the items of `id`.
pub open spec fn items_url(id: Seq<char>) -> Seq<char> {
    items_endpoint() + id
}

/// The text of the row that shows `item`: its name, then its price.
pub open spec fn row_text(item: Item) -> Seq<char> {
    item.item_name@ + seq![' ', '/', ' '] + item.item_price@
}

/// `rows` shows `items`, one row per item, in order.
pub open spec fn shows_rows(rows: Seq<String>, items: Seq<Item>) -> bool {
    &&& rows.len() == items.len()
    &&& forall|i: int| 0 <= i < rows.len() ==> #[trigger] rows[i]@ == row_text(items[i])
}

/// The address that fetches the items of `id`.
pub fn items_url_of(id: &String) -> (r: String)
    ensures
        r@ == items_url(id@),
{
    let mut url = String::from_str("https://receipten-backend.ojisan.vercel.app/api/get-items?id=");
    url.append(id.as_str());
    url
}

/// The text of the row that shows `item`.
pub fn render_item(item: &Item) -> (r: String)
    ensures
        r@ == row_text(*item),
{
    proof {
        reveal_strlit(" / ");
    }
    let mut s = item.item_name.clone();
    s.append(" / ");
    s.append(item.item_price.as_str());
    assert(s@ =~= row_text(*item));
    s
}

/// The rows that show `items`.
pub fn render_rows(items: &Vec<Item>) -> (r: Vec<String>)
    ensures
        shows_rows(r@, items@),
{
    let mut rows: Vec<String> = Vec::new();
    let mut i: usize = 0;
    while i < items.len()
        invariant
            i <= items@.len(),
            shows_rows(rows@, items@.subrange(0, i as int)),
        decreases items@.len() - i,
    {
        let row = render_item(&items[i]);
        rows.push(row);
        i = i + 1;
    }
    assert(items@.subrange(0, i as int) =~= items@);
    rows
}

/// The item page: the id it shows and the state of its fetch.
#[derive(Debug, Clone, PartialEq, Eq)]
pub struct Receipt {
    pub id: String,
    pub fetch: Fetcher<ResponseData>,
}

impl Receipt {
    /// What `screen` shows for the fetch state `state`.
    pub open spec fn shows(state: FetchState<ResponseData>, screen: Screen) -> bool {
        match state {
            FetchState::Idle => screen is Trigger,
            FetchState::Loading { .. } => screen is Fetching,
            FetchState::Success { value } => {
                &&& screen is Rows
                &&& screen->sum == value.sum
                &&& shows_rows(screen->rows@, value.data@)
            },
            FetchState::Error { message } => screen is Message && screen->text@ == message@,
        }
    }

    /// Mounts the page for `props.id` and issues its first request.
    pub fn create(props: Props) -> (r: (Receipt, Request))
        ensures
            r.0.id@ == props.id@,
            r.0.fetch.wf(),
            r.0.fetch.last_token == 1,
            r.0.fetch.state == (FetchState::<ResponseData>::Loading { token: 1 }),
            r.1.token == 1,
            r.1.url@ == items_url(props.id@),
    {
        let mut fetch = Fetcher::new();
        let token = fetch.start_fetch();
        let url = items_url_of(&props.id);
        (Receipt { id: props.id, fetch }, Request { token, url })
    }

    /// Issues a new request for the same id; it supersedes any outstanding one.
    pub fn refetch(&mut self) -> (r: Request)
        requires
            old(self).fetch.last_token < u64::MAX,
        ensures
            old(self).fetch.started(r.token, &final(self).fetch),
            old(self).fetch.wf() ==> final(self).fetch.wf(),
            final(self).id == old(self).id,
            r.url@ == items_url(old(self).id@),
    {
        let token = self.fetch.start_fetch();
        let url = items_url_of(&self.id);
        Request { token, url }
    }

    /// Applies a completion; returns whether the page must be drawn again.
    pub fn update(&mut self, msg: Msg) -> (r: bool)
        ensures
            final(self).id == old(self).id,
            old(self).fetch.wf() ==> final(self).fetch.wf(),
            match msg {
                Msg::SuccessFetchData(token, result) => {
                    &&& old(self).fetch.responded(token, result, &final(self).fetch)
                    &&& r == (old(self).fetch.state == (FetchState::<ResponseData>::Loading { token }))
                },
            },
    {
        match msg {
            Msg::SuccessFetchData(token, result) => self.fetch.on_response(token, result),
        }
    }

    /// Drops the outstanding request when the page goes away; returns
    /// whether one was outstanding.
    pub fn destroy(&mut self) -> (r: bool)
        ensures
            final(self).id == old(self).id,
            old(self).fetch.cancelled(&final(self).fetch),
            r == old(self).fetch.state is Loading,
            old(self).fetch.wf() ==> final(self).fetch.wf(),
    {
        self.fetch.cancel()
    }

    /// Whether the page shows its loading indicator.
    pub fn fetching(&self) -> (r: bool)
        ensures
            r == self.fetch.state is Loading,
    {
        self.fetch.is_loading()
    }

    /// The rows of the accepted payload, if there is one.
    pub fn success(&self) -> (r: Option<Vec<String>>)
        ensures
            r is Some == self.fetch.state is Success,
            r is Some ==> shows_rows(r->Some_0@, self.fetch.state->value.data@),
    {
        match &self.fetch.state {
            FetchState::Success { value } => Some(render_rows(&value.data)),
            _ => None,
        }
    }

    /// The text of the last failure, if the fetch failed.
    pub fn error(&self) -> (r: Option<String>)
        ensures
            r is Some == self.fetch.state is Error,
            r is Some ==> r->Some_0@ == self.fetch.state->message@,
    {
        match &self.fetch.state {
            FetchState::Error { message } => Some(message.clone()),
            _ => None,
        }
    }

    /// What the page shows for its current state.
    pub fn view(&self) -> (r: Screen)
        ensures
            Self::shows(self.fetch.state, r),
    {
        match &self.fetch.state {
            FetchState::Idle => Screen::Trigger,
            FetchState::Loading { .. } => Screen::Fetching,
            FetchState::Success { value } => Screen::Rows {
                rows: render_rows(&value.data),
                sum: value.sum,
            },
            FetchState::Error { message } => Screen::Message { text: message.clone() },
        }
    }
}

} // verus!
