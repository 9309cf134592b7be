use vstd::prelude::*;

verus! {

/// The HTTP method of an inbound request, as far as routing cares.
pub enum Method {
    Get,
    Post,
    Other,
}

/// The payload of an inbound request.
pub enum Body {
    Empty,
    Text(String),
    Binary(Vec<u8>),
}

/// An inbound request: method, the `table` and `key` path parameters when the
/// path carried them, the raw bytes of the `Authorization` header, and the body.
pub struct Request {
    pub method: Method,
    pub table: Option<String>,
    pub key: Option<String>,
    pub authorization: Option<Vec<u8>>,
    pub body: Body,
}

/// The outcome of handling one request.
pub enum DispatchResult {
    IllegalMethod,
    UnknownPath,
    DynamoErr,
    Get(Option<String>),
    Unauthorized,
    InvalidBody,
    Stored,
}

/// What the handler asks of its surroundings: answer at once, or make one
/// round trip to the store and hand the result back.
pub enum Action {
    Reply(DispatchResult),
    Fetch { table: String, key: String },
    Put { table: String, key: String, value: String },
}

/// A transport response: status code and body (`None` for an empty body).
pub struct Reply {
    pub status: u16,
    pub body: Option<String>,
}

/// The bytes of `Token: `.
pub open spec fn token_prefix() -> Seq<u8> {
    seq![84u8, 111u8, 107u8, 101u8, 110u8, 58u8, 32u8]
}

/// A byte that `http` accepts in a header read as text: a tab or visible ASCII.
pub open spec fn is_header_text_byte(b: u8) -> bool {
    b == 9 || (32 <= b && b < 127)
}

/// Whether a header value grants a write: it is text, starts with `Token: `,
/// and the rest equals the secret byte for byte.
pub open spec fn authorized_spec(header: Option<Seq<u8>>, secret: Seq<u8>) -> bool {
    match header {
        None => false,
        Some(h) => (forall|i: int| 0 <= i < h.len() ==> is_header_text_byte(#[trigger] h[i]))
            && h == token_prefix() + secret,
    }
}

pub open spec fn path_of(r: Request) -> Option<(Seq<char>, Seq<char>)> {
    match (r.table, r.key) {
        (Some(t), Some(k)) => Some((t@, k@)),
        _ => None,
    }
}

/// The abstract form of an `Action`.
pub enum ActionView {
    Reply(DispatchResult),
    Fetch(Seq<char>, Seq<char>),
    Put(Seq<char>, Seq<char>, Seq<char>),
}

pub open spec fn action_view(a: Action) -> ActionView {
    match a {
        Action::Reply(d) => ActionView::Reply(d),
        Action::Fetch { table, key } => ActionView::Fetch(table@, key@),
        Action::Put { table, key, value } => ActionView::Put(table@, key@, value@),
    }
}

/// The decision the dispatcher makes for a request, before any store call.
pub open spec fn dispatch_spec(r: Request, secret: Seq<u8>) -> ActionView {
    match r.method {
        Method::Other => ActionView::Reply(DispatchResult::IllegalMethod),
        Method::Get => match path_of(r) {
            None => ActionView::Reply(DispatchResult::UnknownPath),
            Some((t, k)) => ActionView::Fetch(t, k),
        },
        Method::Post => if !authorized_spec(
            match r.authorization {
                Some(h) => Some(h@),
                None => None,
            },
            secret,
        ) {
            ActionView::Reply(DispatchResult::Unauthorized)
        } else {
            match path_of(r) {
                None => ActionView::Reply(DispatchResult::UnknownPath),
                Some((t, k)) => match r.body {
                    Body::Text(v) => ActionView::Put(t, k, v@),
                    _ => ActionView::Reply(DispatchResult::InvalidBody),
                },
            }
        },
    }
}

/// Decides whether `header` authorizes a write under `secret`.
pub fn authorize(header: &Option<Vec<u8>>, secret: &Vec<u8>) -> (r: bool)
    ensures
        r == authorized_spec(
            match header {
                Some(h) => Some(h@),
                None => None,
            },
            secret@,
        ),
{
    match header {
        None => false,
        Some(h) => token_matches(h, secret),
    }
}

/// Decides whether a present header value grants a write under `secret`.
pub fn token_matches(h: &Vec<u8>, secret: &Vec<u8>) -> (r: bool)
    ensures
        r == authorized_spec(Some(h@), secret@),
{
    let mut i: usize = 0;
    while i < h.len()
        invariant
            i <= h.len(),
            forall|j: int| 0 <= j < i ==> is_header_text_byte(#[trigger] h@[j]),
        decreases h.len() - i,
    {
        let b = h[i];
        if !(b == 9 || (32 <= b && b < 127)) {
            assert(!is_header_text_byte(h@[i as int]));
            return false;
        }
        i = i + 1;
    }
    let prefix: Vec<u8> = vec![84u8, 111u8, 107u8, 101u8, 110u8, 58u8, 32u8];
    assert(prefix@ =~= token_prefix());
    if h.len() < prefix.len() || h.len() - prefix.len() != secret.len() {
        assert(h@.len() != (token_prefix() + secret@).len());
        return false;
    }
    let mut j: usize = 0;
    while j < h.len()
        invariant
            j <= h.len(),
            h.len() == prefix.len() + secret.len(),
            prefix@ == token_prefix(),
            forall|k: int| 0 <= k < h.len() ==> is_header_text_byte(#[trigger] h@[k]),
            forall|m: int| 0 <= m < j ==> h@[m] == #[trigger] (token_prefix() + secret@)[m],
        decreases h.len() - j,
    {
        let expected = if j < prefix.len() {
            prefix[j]
        } else {
            secret[j - prefix.len()]
        };
        if h[j] != expected {
            assert(h@[j as int] != (token_prefix() + secret@)[j as int]);
            assert(h@ != token_prefix() + secret@);
            return false;
        }
        j = j + 1;
    }
    assert(h@ =~= token_prefix() + secret@);
    true
}

/// Routes a request by method, checks the credential on writes, resolves the
/// path and the body, and says which store call, if any, is to be made.
pub fn dispatch(request: Request, secret: &Vec<u8>) -> (r: Action)
    ensures
        action_view(r) == dispatch_spec(request, secret@),
{
    match request.method {
        Method::Other => Action::Reply(DispatchResult::IllegalMethod),
        Method::Get => match (request.table, request.key) {
            (Some(table), Some(key)) => Action::Fetch { table, key },
            _ => Action::Reply(DispatchResult::UnknownPath),
        },
        Method::Post => {
            if !authorize(&request.authorization, secret) {
                return Action::Reply(DispatchResult::Unauthorized);
            }
            match (request.table, request.key) {
                (Some(table), Some(key)) => match request.body {
                    Body::Text(value) => Action::Put { table, key, value },
                    _ => Action::Reply(DispatchResult::InvalidBody),
                },
                _ => Action::Reply(DispatchResult::UnknownPath),
            }
        },
    }
}

/// The value a fetched item yields: `None` when no item exists, its `Value`
/// attribute when that is text, and the empty string otherwise.
pub open spec fn fetched_spec(result: Result<Option<Option<Seq<char>>>, ()>) -> Option<
    Seq<char>,
> {
    match result {
        Ok(None) => None,
        Ok(Some(Some(v))) => Some(v),
        Ok(Some(None)) => Some(Seq::empty()),
        Err(_) => None,
    }
}

pub open spec fn opt_view(o: Option<String>) -> Option<Seq<char>> {
    match o {
        Some(v) => Some(v@),
        None => None,
    }
}

pub open spec fn result_view(result: Result<Option<Option<String>>, ()>) -> Result<
    Option<Option<Seq<char>>>,
    (),
> {
    match result {
        Ok(Some(Some(v))) => Ok(Some(Some(v@))),
        Ok(Some(None)) => Ok(Some(None)),
        Ok(None) => Ok(None),
        Err(e) => Err(e),
    }
}

/// Turns the store's answer to a fetch into the outcome. The item is given by
/// its `Value` attribute's text, `None` where that attribute is missing or not text.
pub fn fetched(result: Result<Option<Option<String>>, ()>) -> (r: DispatchResult)
    ensures
        match result {
            Err(_) => r is DynamoErr,
            Ok(None) => r == DispatchResult::Get(None),
            Ok(Some(Some(v))) => r == DispatchResult::Get(Some(v)),
            Ok(Some(None)) => r matches DispatchResult::Get(Some(s)) && s@.len() == 0,
        },
        result is Ok ==> (r matches DispatchResult::Get(o) && opt_view(o) == fetched_spec(
            result_view(result),
        )),
{
    match result {
        Err(_) => DispatchResult::DynamoErr,
        Ok(None) => DispatchResult::Get(None),
        Ok(Some(Some(v))) => DispatchResult::Get(Some(v)),
        Ok(Some(None)) => DispatchResult::Get(Some(String::new())),
    }
}

/// Turns the store's answer to a write into the outcome.
pub fn stored(result: Result<(), ()>) -> (r: DispatchResult)
    ensures
        result is Ok ==> r is Stored,
        result is Err ==> r is DynamoErr,
{
    match result {
        Ok(_) => DispatchResult::Stored,
        Err(_) => DispatchResult::DynamoErr,
    }
}

/// Status code of each outcome.
pub open spec fn status_of(d: DispatchResult) -> u16 {
    match d {
        DispatchResult::IllegalMethod => 405,
        DispatchResult::UnknownPath => 404,
        DispatchResult::DynamoErr => 500,
        DispatchResult::Get(Some(_)) => 200,
        DispatchResult::Get(None) => 404,
        DispatchResult::Unauthorized => 401,
        DispatchResult::InvalidBody => 400,
        DispatchResult::Stored => 204,
    }
}

impl DispatchResult {
    /// Renders the outcome as a status code and body.
    pub fn into_response(self) -> (r: Reply)
        ensures
            r.status == status_of(self),
            match self {
                DispatchResult::Get(Some(v)) => r.body == Some(v),
                _ => r.body is None,
            },
    {
        match self {
            DispatchResult::IllegalMethod => Reply { status: 405, body: None },
            DispatchResult::UnknownPath => Reply { status: 404, body: None },
            DispatchResult::DynamoErr => Reply { status: 500, body: None },
            DispatchResult::Get(value) => match value {
                Some(v) => Reply { status: 200, body: Some(v) },
                None => Reply { status: 404, body: None },
            },
            DispatchResult::Unauthorized => Reply { status: 401, body: None },
            DispatchResult::InvalidBody => Reply { status: 400, body: None },
            DispatchResult::Stored => Reply { status: 204, body: None },
        }
    }
}

/// A store as the handler sees it: the value held under each table and key.
pub open spec fn item_at(
    store: Map<(Seq<char>, Seq<char>), Seq<char>>,
    t: Seq<char>,
    k: Seq<char>,
) -> Option<Option<Seq<char>>> {
    if store.contains_key((t, k)) {
        Some(Some(store[(t, k)]))
    } else {
        None
    }
}

/// A request with any method but GET and POST is refused with `IllegalMethod`,
/// whatever its path, headers and body.
pub proof fn lemma_other_method_refused(r: Request, secret: Seq<u8>)
    requires
        r.method is Other,
    ensures
        dispatch_spec(r, secret) == ActionView::Reply(DispatchResult::IllegalMethod),
{
}

/// A GET whose path lacks `table` or `key` ends in `UnknownPath`.
pub proof fn lemma_get_without_path(r: Request, secret: Seq<u8>)
    requires
        r.method is Get,
        r.table is None || r.key is None,
    ensures
        dispatch_spec(r, secret) == ActionView::Reply(DispatchResult::UnknownPath),
{
}

/// A POST without a valid `Authorization` header ends in `Unauthorized`,
/// whatever its path and body.
pub proof fn lemma_post_unauthorized(r: Request, secret: Seq<u8>)
    requires
        r.method is Post,
        !authorized_spec(
            match r.authorization {
                Some(h) => Some(h@),
                None => None,
            },
            secret,
        ),
    ensures
        dispatch_spec(r, secret) == ActionView::Reply(DispatchResult::Unauthorized),
{
}

/// An authorized POST to a full path whose body is not text ends in
/// `InvalidBody`, and asks for no write.
pub proof fn lemma_post_non_text_body(r: Request, secret: Seq<u8>)
    requires
        r.method is Post,
        authorized_spec(
            match r.authorization {
                Some(h) => Some(h@),
                None => None,
            },
            secret,
        ),
        r.table is Some && r.key is Some,
        !(r.body is Text),
    ensures
        dispatch_spec(r, secret) == ActionView::Reply(DispatchResult::InvalidBody),
        !(dispatch_spec(r, secret) is Put),
{
}

/// Once a POST has been stored, a GET of the same table and key yields the
/// value written.
pub proof fn lemma_write_then_read(
    store: Map<(Seq<char>, Seq<char>), Seq<char>>,
    post: Request,
    get: Request,
    secret: Seq<u8>,
    t: Seq<char>,
    k: Seq<char>,
    v: Seq<char>,
)
    requires
        dispatch_spec(post, secret) == ActionView::Put(t, k, v),
        get.method is Get,
        path_of(get) == Some((t, k)),
    ensures
        dispatch_spec(get, secret) == ActionView::Fetch(t, k),
        fetched_spec(Ok(item_at(store.insert((t, k), v), t, k))) == Some(v),
{
}

/// A GET of a table and key that was never written yields no value, which
/// renders as 404 with an empty body.
pub proof fn lemma_read_unwritten(
    store: Map<(Seq<char>, Seq<char>), Seq<char>>,
    get: Request,
    secret: Seq<u8>,
    t: Seq<char>,
    k: Seq<char>,
)
    requires
        get.method is Get,
        path_of(get) == Some((t, k)),
        !store.contains_key((t, k)),
    ensures
        dispatch_spec(get, secret) == ActionView::Fetch(t, k),
        fetched_spec(Ok(item_at(store, t, k))) is None,
        status_of(DispatchResult::Get(None)) == 404,
{
}

} // verus!
