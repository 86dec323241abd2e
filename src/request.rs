use vstd::prelude::*;

verus! {

#[derive(Clone, Copy, Debug, PartialEq, Eq, Structural)]
pub enum Method {
    Get,
    Post,
    Put,
    Delete,
}

/// What a request carries: nothing, text, or raw bytes forwarded verbatim.
#[derive(Clone, Debug, PartialEq, Eq)]
pub enum Body {
    Empty,
    Text(String),
    Bytes(Vec<u8>),
}

/// One request to the archive: a method, the path's segments (joined by `/`
/// below the server's address) and a body.
#[derive(Clone, Debug, PartialEq, Eq)]
pub struct Request {
    pub method: Method,
    pub path: Vec<String>,
    pub body: Body,
}

/// The segments of a path, as character sequences.
pub open spec fn segments_view(path: Seq<String>) -> Seq<Seq<char>> {
    path.map_values(|s: String| s@)
}

impl Request {
    pub open spec fn path_view(&self) -> Seq<Seq<char>> {
        segments_view(self.path@)
    }
}

/// Appends one segment to a path.
pub fn push_segment(path: &mut Vec<String>, segment: String)
    ensures
        segments_view(final(path)@) == segments_view(old(path)@).push(segment@),
{
    let ghost s = segment@;
    path.push(segment);
    assert(segments_view(path@) =~= segments_view(old(path)@).push(s));
}

/// A path of one literal segment.
pub fn path_of_one(a: &str) -> (r: Vec<String>)
    ensures
        segments_view(r@) == seq![a@],
{
    let mut path: Vec<String> = Vec::new();
    assert(segments_view(path@) =~= Seq::<Seq<char>>::empty());
    push_segment(&mut path, String::from_str(a));
    assert(seq![a@] =~= Seq::<Seq<char>>::empty().push(a@));
    path
}

/// A path of two segments.
pub fn path_of_two(a: &str, b: &str) -> (r: Vec<String>)
    ensures
        segments_view(r@) == seq![a@, b@],
{
    let mut path = path_of_one(a);
    push_segment(&mut path, String::from_str(b));
    assert(seq![a@, b@] =~= seq![a@].push(b@));
    path
}

/// A path of three segments.
pub fn path_of_three(a: &str, b: &str, c: &str) -> (r: Vec<String>)
    ensures
        segments_view(r@) == seq![a@, b@, c@],
{
    let mut path = path_of_two(a, b);
    push_segment(&mut path, String::from_str(c));
    assert(seq![a@, b@, c@] =~= seq![a@, b@].push(c@));
    path
}

/// The address of a request below the server's base address: each segment
/// follows a `/`.
pub open spec fn joined(base: Seq<char>, path: Seq<Seq<char>>) -> Seq<char>
    decreases path.len(),
{
    if path.len() == 0 {
        base
    } else {
        joined(base, path.drop_last()) + "/"@ + path.last()
    }
}

/// The full address of a request sent to the server at `base`.
pub fn request_url(base: &str, request: &Request) -> (r: String)
    ensures
        r@ == joined(base@, request.path_view()),
{
    let mut url = String::from_str(base);
    let mut i: usize = 0;
    let ghost segs = request.path_view();
    while i < request.path.len()
        invariant
            i <= request.path.len(),
            segs == request.path_view(),
            url@ == joined(base@, segs.subrange(0, i as int)),
        decreases request.path.len() - i,
    {
        assert(segs.subrange(0, i + 1).drop_last() =~= segs.subrange(0, i as int));
        url.append("/");
        url.append(request.path[i].as_str());
        i = i + 1;
    }
    assert(segs.subrange(0, i as int) =~= segs);
    url
}

} // verus!
