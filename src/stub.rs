use vstd::prelude::*;

verus! {

/// A named value: a header or a query parameter.
pub struct StubParam {
    pub name: String,
    pub value: String,
}

/// Two characters are equal up to ASCII case.
pub open spec fn ascii_char_eq_ignore_case(a: char, b: char) -> bool {
    a == b || ('A' <= a <= 'Z' && b as u32 == a as u32 + 32) || ('a' <= a <= 'z' && a as u32 == b as u32 + 32)
}

/// Two texts are equal up to ASCII case.
pub open spec fn ascii_eq_ignore_case(a: Seq<char>, b: Seq<char>) -> bool {
    a.len() == b.len() && forall|i: int| 0 <= i < a.len() ==> ascii_char_eq_ignore_case(#[trigger] a[i], b[i])
}

/// Whether two names are equal up to ASCII case.
pub fn names_match(a: &str, b: &str) -> (r: bool)
    ensures
        r == ascii_eq_ignore_case(a@, b@),
{
    let n = a.unicode_len();
    if n != b.unicode_len() {
        return false;
    }
    let mut i: usize = 0;
    while i < n
        invariant
            n == a@.len(),
            n == b@.len(),
            i <= n,
            forall|j: int| 0 <= j < i ==> ascii_char_eq_ignore_case(#[trigger] a@[j], b@[j]),
        decreases n - i,
    {
        let x = a.get_char(i);
        let y = b.get_char(i);
        let same = x == y || ('A' <= x && x <= 'Z' && (y as u32) == (x as u32) + 32) || ('a' <= x && x
            <= 'z' && (x as u32) == (y as u32) + 32);
        if !same {
            return false;
        }
        i = i + 1;
    }
    true
}

/// The values of the parameters named `name` (ignoring ASCII case), in order.
pub open spec fn matching_values(params: Seq<StubParam>, name: Seq<char>) -> Seq<Seq<char>>
    decreases params.len(),
{
    if params.len() == 0 {
        Seq::empty()
    } else {
        let prev = matching_values(params.drop_last(), name);
        if ascii_eq_ignore_case(params.last().name@, name) {
            prev.push(params.last().value@)
        } else {
            prev
        }
    }
}

/// Messages that carry headers and an optional body.
pub trait StubMessage {
    spec fn header_list(&self) -> Seq<StubParam>;

    spec fn body_bytes(&self) -> Option<Seq<u8>>;

    fn headers(&self) -> (r: &Vec<StubParam>)
        ensures
            r@ == self.header_list(),
    ;

    fn body(&self) -> (r: Option<&Vec<u8>>)
        ensures
            r is Some <==> self.body_bytes() is Some,
            r is Some ==> r->Some_0@ == self.body_bytes()->Some_0,
    ;
}

/// A request as the stub engine sees it.
#[derive(Default)]
pub struct StubRequest {
    pub method: Option<String>,
    pub path: Option<String>,
    pub params: Vec<StubParam>,
    pub headers: Vec<StubParam>,
    pub body: Option<Vec<u8>>,
    pub body_type: Option<String>,
}

impl StubRequest {
    /// The value of the first parameter named `name`, ignoring ASCII case.
    pub fn get_param(&self, name: &str) -> (r: Option<&str>)
        ensures
            r is None <==> forall|i: int|
                0 <= i < self.params@.len() ==> !ascii_eq_ignore_case(#[trigger] self.params@[i].name@, name@),
            r is Some ==> exists|i: int|
                0 <= i < self.params@.len() && ascii_eq_ignore_case(#[trigger] self.params@[i].name@, name@)
                    && r->Some_0@ == self.params@[i].value@ && forall|j: int|
                    0 <= j < i ==> !ascii_eq_ignore_case(#[trigger] self.params@[j].name@, name@),
    {
        let mut i: usize = 0;
        while i < self.params.len()
            invariant
                i <= self.params@.len(),
                forall|j: int| 0 <= j < i ==> !ascii_eq_ignore_case(#[trigger] self.params@[j].name@, name@),
            decreases self.params@.len() - i,
        {
            let p = &self.params[i];
            if names_match(p.name.as_str(), name) {
                return Some(p.value.as_str());
            }
            i = i + 1;
        }
        None
    }

    /// The values of all parameters named `name`, ignoring ASCII case, in
    /// order.
    pub fn get_params(&self, name: &str) -> (r: Vec<&str>)
        ensures
            r@.map_values(|s: &str| s@) == matching_values(self.params@, name@),
    {
        let mut r: Vec<&str> = Vec::new();
        let mut i: usize = 0;
        while i < self.params.len()
            invariant
                i <= self.params@.len(),
                r@.map_values(|s: &str| s@) == matching_values(self.params@.subrange(0, i as int), name@),
            decreases self.params@.len() - i,
        {
            let p = &self.params[i];
            proof {
                assert(self.params@.subrange(0, i + 1).drop_last() =~= self.params@.subrange(0, i as int));
            }
            if names_match(p.name.as_str(), name) {
                r.push(p.value.as_str());
            }
            assert(r@.map_values(|s: &str| s@) =~= matching_values(self.params@.subrange(0, i + 1), name@));
            i = i + 1;
        }
        assert(self.params@.subrange(0, i as int) =~= self.params@);
        r
    }
}

impl StubMessage for StubRequest {
    open spec fn header_list(&self) -> Seq<StubParam> {
        self.headers@
    }

    open spec fn body_bytes(&self) -> Option<Seq<u8>> {
        match self.body {
            Some(b) => Some(b@),
            None => None,
        }
    }

    fn headers(&self) -> &Vec<StubParam> {
        &self.headers
    }

    fn body(&self) -> Option<&Vec<u8>> {
        self.body.as_ref()
    }
}

/// A response that a stub gives.
#[derive(Default)]
pub struct StubResponse {
    pub status: u16,
    pub headers: Vec<StubParam>,
    pub body: Option<Vec<u8>>,
}

impl StubMessage for StubResponse {
    open spec fn header_list(&self) -> Seq<StubParam> {
        self.headers@
    }

    open spec fn body_bytes(&self) -> Option<Seq<u8>> {
        match self.body {
            Some(b) => Some(b@),
            None => None,
        }
    }

    fn headers(&self) -> &Vec<StubParam> {
        &self.headers
    }

    fn body(&self) -> Option<&Vec<u8>> {
        self.body.as_ref()
    }
}

/// A stubbed request with the response it gets, and an optional delay in
/// milliseconds before the response is sent.
pub struct StubExchange {
    pub request: StubRequest,
    pub response: StubResponse,
    pub delay: Option<u32>,
}

} // verus!
