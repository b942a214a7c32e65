//! The router: from the path of a request to the operation it asks for.

use url::Url;
use vstd::prelude::*;
use vstd::string::*;

verus! {

/// The model of a [`Route`].
pub enum RouteView {
    CalendarStart,
    CalendarEnd,
    Events,
    Submit { submitter: Seq<char> },
    CheckLastSubmission { submitter: Seq<char> },
    Unhandled,
}

/// The operation a request asks for.
#[derive(Debug, PartialEq, Eq)]
pub enum Route {
    /// `/calendar_start`: a season starts.
    CalendarStart,
    /// `/calendar_end`: the season ends.
    CalendarEnd,
    /// `/events`: a chat event, acknowledged.
    Events,
    /// `/submit/discord/:submitter`: a guess.
    Submit { submitter: String },
    /// `/submit/discord/last/:submitter`: a look at the latest guess.
    CheckLastSubmission { submitter: String },
    /// Anything else.
    Unhandled,
}

impl View for Route {
    type V = RouteView;

    open spec fn view(&self) -> RouteView {
        match self {
            Route::CalendarStart => RouteView::CalendarStart,
            Route::CalendarEnd => RouteView::CalendarEnd,
            Route::Events => RouteView::Events,
            Route::Submit { submitter } => RouteView::Submit { submitter: submitter@ },
            Route::CheckLastSubmission { submitter } => RouteView::CheckLastSubmission {
                submitter: submitter@,
            },
            Route::Unhandled => RouteView::Unhandled,
        }
    }
}

/// The pieces of `s` between its slashes, in order. A text without a slash
/// is one piece; two slashes in a row, or a slash at either end, give an
/// empty piece.
pub open spec fn split(s: Seq<char>) -> Seq<Seq<char>>
    decreases s.len(),
{
    if s.len() == 0 {
        seq![Seq::<char>::empty()]
    } else {
        let before = split(s.drop_last());
        if s.last() == '/' {
            before.push(Seq::<char>::empty())
        } else {
            before.drop_last().push(before.last().push(s.last()))
        }
    }
}

/// Splitting gives at least one piece.
pub proof fn lemma_split_nonempty(s: Seq<char>)
    ensures
        split(s).len() >= 1,
    decreases s.len(),
{
    if s.len() > 0 {
        lemma_split_nonempty(s.drop_last());
    }
}

/// A text without a slash is its own single piece.
pub proof fn lemma_split_plain(s: Seq<char>)
    requires
        forall|i: int| 0 <= i < s.len() ==> s[i] != '/',
    ensures
        split(s) == seq![s],
    decreases s.len(),
{
    if s.len() == 0 {
        assert(s =~= Seq::<char>::empty());
    } else {
        lemma_split_plain(s.drop_last());
        assert(s.drop_last().push(s.last()) =~= s);
        assert(split(s) =~= seq![s]);
    }
}

/// The pieces of two texts joined by a slash are the pieces of the first
/// followed by the pieces of the second.
pub proof fn lemma_split_slash(a: Seq<char>, b: Seq<char>)
    ensures
        split(a + seq!['/'] + b) == split(a) + split(b),
    decreases b.len(),
{
    let whole = a + seq!['/'] + b;
    if b.len() == 0 {
        assert(whole.drop_last() =~= a);
        assert(split(whole) =~= split(a) + split(b));
    } else {
        let shorter = a + seq!['/'] + b.drop_last();
        assert(whole.drop_last() =~= shorter);
        assert(whole.last() == b.last());
        lemma_split_slash(a, b.drop_last());
        lemma_split_nonempty(b.drop_last());
        assert(split(whole) =~= split(a) + split(b));
    }
}

/// No piece holds a slash.
pub proof fn lemma_pieces_hold_no_slash(s: Seq<char>)
    ensures
        forall|k: int, i: int|
            0 <= k < split(s).len() && 0 <= i < split(s)[k].len() ==> split(s)[k][i] != '/',
    decreases s.len(),
{
    if s.len() > 0 {
        lemma_pieces_hold_no_slash(s.drop_last());
        lemma_split_nonempty(s.drop_last());
    }
}

/// The segments of a path: what follows its leading slash, split at the
/// slashes. A path that does not start with a slash has none.
pub open spec fn path_segments(path: Seq<char>) -> Option<Seq<Seq<char>>> {
    if path.len() > 0 && path[0] == '/' {
        Some(split(path.drop_first()))
    } else {
        None
    }
}

/// The route that a list of segments selects. The first segment decides
/// among the single-segment routes. Under `submit/discord` the next segment
/// is the submitter, unless it is `last`, which asks for one more segment,
/// the submitter whose latest guess is wanted.
pub open spec fn route_of_segments(segments: Seq<Seq<char>>) -> RouteView {
    if segments.len() == 0 {
        RouteView::Unhandled
    } else if segments[0] == "calendar_start"@ {
        RouteView::CalendarStart
    } else if segments[0] == "calendar_end"@ {
        RouteView::CalendarEnd
    } else if segments[0] == "events"@ {
        RouteView::Events
    } else if segments[0] == "submit"@ && segments.len() >= 3 && segments[1] == "discord"@ {
        if segments[2] != "last"@ {
            RouteView::Submit { submitter: segments[2] }
        } else if segments.len() >= 4 {
            RouteView::CheckLastSubmission { submitter: segments[3] }
        } else {
            RouteView::Unhandled
        }
    } else {
        RouteView::Unhandled
    }
}

/// The route of a path.
pub open spec fn route_of(path: Seq<char>) -> RouteView {
    match path_segments(path) {
        Some(segments) => route_of_segments(segments),
        None => RouteView::Unhandled,
    }
}

/// A submitter is one segment: whatever the path, the submitter that the
/// router hands on holds no slash.
pub proof fn lemma_submitter_holds_no_slash(path: Seq<char>)
    ensures
        match route_of(path) {
            RouteView::Submit { submitter } => !submitter.contains('/'),
            RouteView::CheckLastSubmission { submitter } => !submitter.contains('/'),
            _ => true,
        },
{
    if path.len() > 0 && path[0] == '/' {
        lemma_pieces_hold_no_slash(path.drop_first());
    }
}

/// The segments of `path`, or `None` where it does not start with a slash.
pub fn segments_of(path: &str) -> (segments: Option<Vec<String>>)
    ensures
        match segments {
            Some(v) => path_segments(path@) == Some(v.deep_view()),
            None => path_segments(path@) is None,
        },
{
    let mut done: Vec<String> = Vec::new();
    let mut current = String::new();
    let mut started = false;
    let ghost rest = if path@.len() > 0 {
        path@.drop_first()
    } else {
        Seq::<char>::empty()
    };
    for c in it: path.chars()
        invariant
            it.seq() == path@,
            path@.len() > 0 ==> rest == path@.drop_first(),
            started == (it.index() > 0),
            it.index() > 0 ==> path@[0] == '/',
            it.index() > 0 ==> split(rest.take(it.index() - 1)) == done.deep_view().push(
                current@,
            ),
            it.index() == 0 ==> done@.len() == 0 && current@.len() == 0,
    {
        if !started {
            if c != '/' {
                return None;
            }
            started = true;
            assert(rest.take(0) =~= Seq::<char>::empty());
            assert(current@ =~= Seq::<char>::empty());
            assert(done.deep_view().push(current@) =~= seq![Seq::<char>::empty()]);
        } else {
            let ghost k = it.index() - 1;
            let ghost before = done.deep_view();
            let ghost piece = current@;
            assert(rest.take(k + 1).drop_last() =~= rest.take(k));
            assert(rest.take(k + 1).last() == c);
            if c == '/' {
                done.push(current);
                current = String::new();
                assert(done.deep_view() =~= before.push(piece));
            } else {
                current.push(c);
            }
        }
    }
    if !started {
        return None;
    }
    assert(rest.take(rest.len() as int) =~= rest);
    done.push(current);
    Some(done)
}

/// The path of the absolute URL `url`, as `url::Url` parses it; `None`
/// where it is no absolute URL.
pub uninterp spec fn url_path(url: Seq<char>) -> Option<Seq<char>>;

/// `url::Url::parse`, then `Url::path` of what was parsed. The contract only
/// names the outcome, [`url_path`].
#[verifier::external_body]
fn parse_path(url: &str) -> (path: Option<String>)
    ensures
        path matches Some(p) ==> url_path(url@) == Some(p@),
        path is None ==> url_path(url@) is None,
{
    match Url::parse(url) {
        Ok(parsed) => Some(parsed.path().to_string()),
        Err(_) => None,
    }
}

impl Route {
    /// The route that the segments of a path select.
    pub fn from_segments(segments: &Vec<String>) -> (route: Route)
        ensures
            route@ == route_of_segments(segments.deep_view()),
    {
        let n = segments.len();
        if n == 0 {
            return Route::Unhandled;
        }
        let first = &segments[0];
        assert(segments.deep_view()[0] == first@);
        if *first == String::from_str("calendar_start") {
            return Route::CalendarStart;
        }
        if *first == String::from_str("calendar_end") {
            return Route::CalendarEnd;
        }
        if *first == String::from_str("events") {
            return Route::Events;
        }
        if *first == String::from_str("submit") && n >= 3 {
            assert(segments.deep_view()[1] == segments[1]@);
            assert(segments.deep_view()[2] == segments[2]@);
            if segments[1] == String::from_str("discord") {
                if segments[2] != String::from_str("last") {
                    return Route::Submit { submitter: segments[2].clone() };
                }
                if n >= 4 {
                    assert(segments.deep_view()[3] == segments[3]@);
                    return Route::CheckLastSubmission { submitter: segments[3].clone() };
                }
            }
        }
        Route::Unhandled
    }

    /// The route of the path `path`.
    pub fn from(path: &str) -> (route: Route)
        ensures
            route@ == route_of(path@),
    {
        match segments_of(path) {
            Some(segments) => Route::from_segments(&segments),
            None => Route::Unhandled,
        }
    }

    /// The route of the absolute URL `url`, with the URL's path; `None` where
    /// `url` is no absolute URL.
    pub fn from_url(url: &str) -> (found: Option<(Route, String)>)
        ensures
            match found {
                Some((route, path)) => url_path(url@) == Some(path@) && route@ == route_of(path@),
                None => url_path(url@) is None,
            },
    {
        match parse_path(url) {
            Some(path) => {
                let route = Route::from(path.as_str());
                Some((route, path))
            },
            None => None,
        }
    }
}

} // verus!
