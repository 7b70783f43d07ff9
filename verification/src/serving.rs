//! How the files of a widget are served, each widget under an address of its own.

use vstd::prelude::*;
use vstd::string::*;

use crate::text::{chars_of, same_text};
use crate::widgets::{
    find_widget, first_widget, law_the_first_widget_is_found, WidgetManifest,
};

verus! {

/// The policy that every answer to a widget's request carries: no fetching from anywhere,
/// no inline or remote script. A widget only ever renders, and listens for events.
pub const CONTENT_SECURITY_POLICY: &'static str =
    "default-src 'self'; script-src 'self'; style-src 'self' 'unsafe-inline'; img-src 'self' data:; connect-src 'none'; frame-src 'none'; object-src 'none';";

/// The status of an answer that holds a file.
pub const STATUS_OK: u16 = 200;

/// The status of an answer that holds none.
pub const STATUS_NOT_FOUND: u16 = 404;

/// Whether the last dot of a name is at `i`.
pub open spec fn is_last_dot(name: Seq<char>, i: int) -> bool {
    &&& 0 <= i < name.len()
    &&& name[i] == '.'
    &&& forall|j: int| i < j < name.len() ==> name[j] != '.'
}

/// What stands behind the last dot of a file's name. A dot that the name begins with
/// is none that an extension stands behind.
pub open spec fn extension(name: Seq<char>) -> Option<Seq<char>> {
    if exists|i: int| 0 < i && is_last_dot(name, i) {
        Some(name.skip((choose|i: int| 0 < i && is_last_dot(name, i)) + 1))
    } else {
        None
    }
}

/// The kind of content that a file of an extension holds.
pub open spec fn content_type(extension: Option<Seq<char>>) -> Seq<char> {
    match extension {
        Some(ext) => if ext == "html"@ {
            "text/html"@
        } else if ext == "css"@ {
            "text/css"@
        } else if ext == "js"@ {
            "application/javascript"@
        } else if ext == "json"@ {
            "application/json"@
        } else if ext == "png"@ {
            "image/png"@
        } else if ext == "svg"@ {
            "image/svg+xml"@
        } else if ext == "wav"@ {
            "audio/wav"@
        } else {
            "application/octet-stream"@
        },
        None => "application/octet-stream"@,
    }
}

/// The extension of a file's name.
fn extension_of(name: &str) -> (ext: Option<&str>)
    ensures
        ext matches Some(e) ==> extension(name@) == Some(e@),
        ext is None ==> extension(name@) is None,
{
    let chars: Vec<char> = chars_of(name);
    let mut i: usize = chars.len();
    while i > 1
        invariant
            chars@ == name@,
            i <= chars.len(),
            forall|j: int| i <= j < chars.len() ==> chars@[j] != '.',
        decreases i,
    {
        i -= 1;
        if chars[i] == '.' {
            proof {
                assert(is_last_dot(name@, i as int));
                let chosen = choose|k: int| 0 < k && is_last_dot(name@, k);
                assert(chosen == i);
                assert(name@.subrange(i + 1, chars.len() as int) =~= name@.skip(i + 1));
            }
            return Some(name.substring_char(i + 1, chars.len()));
        }
    }
    None
}

/// The kind of content that a file holds, by the extension of its name.
pub fn widget_content_type(file_name: &str) -> (kind: &'static str)
    ensures
        kind@ == content_type(extension(file_name@)),
{
    match extension_of(file_name) {
        Some(ext) => if same_text(ext, "html") {
            "text/html"
        } else if same_text(ext, "css") {
            "text/css"
        } else if same_text(ext, "js") {
            "application/javascript"
        } else if same_text(ext, "json") {
            "application/json"
        } else if same_text(ext, "png") {
            "image/png"
        } else if same_text(ext, "svg") {
            "image/svg+xml"
        } else if same_text(ext, "wav") {
            "audio/wav"
        } else {
            "application/octet-stream"
        },
        None => "application/octet-stream",
    }
}

/// The parts of a path between its slashes, empty ones among them.
pub open spec fn segments(path: Seq<char>) -> Seq<Seq<char>>
    decreases path.len(),
{
    if path.len() == 0 {
        seq![Seq::empty()]
    } else {
        let front = segments(path.drop_last());
        if path.last() == '/' {
            front.push(Seq::empty())
        } else {
            front.drop_last().push(front.last().push(path.last()))
        }
    }
}

/// A path without the slashes that it begins with.
pub open spec fn without_leading_slashes(path: Seq<char>) -> Seq<char>
    decreases path.len(),
{
    if path.len() > 0 && path.first() == '/' {
        without_leading_slashes(path.drop_first())
    } else {
        path
    }
}

/// Whether a part of a path names a file or directory of its own, and does not lead
/// upwards.
pub open spec fn is_plain_segment(segment: Seq<char>) -> bool {
    segment.len() > 0 && segment != ".."@
}

/// Whether a relative path stays below where it starts: it has parts, and each is
/// plain.
pub open spec fn stays_below(path: Seq<char>) -> bool {
    &&& path.len() > 0
    &&& forall|i: int| 0 <= i < segments(path).len() ==> is_plain_segment(#[trigger] segments(path)[i])
}

/// The file that the path of a request names, relative to the widget's directory.
pub open spec fn requested_file(path: Seq<char>) -> Option<Seq<char>> {
    let relative = without_leading_slashes(path);
    if stays_below(relative) {
        Some(relative)
    } else {
        None
    }
}

/// All parts of a path but its last are parts of every path that goes on from it.
proof fn lemma_segments_kept(path: Seq<char>, n: int, k: int)
    requires
        0 <= n <= path.len(),
        0 <= k < segments(path.take(n)).len() - 1,
    ensures
        k < segments(path).len() - 1,
        segments(path)[k] == segments(path.take(n))[k],
    decreases path.len(),
{
    if n < path.len() {
        let front = path.drop_last();
        assert(front.take(n) =~= path.take(n));
        lemma_segments_kept(front, n, k);
    } else {
        assert(path.take(n) =~= path);
    }
}

/// Whether the characters from `start` to `end` are a plain part of a path.
fn is_plain(chars: &Vec<char>, start: usize, end: usize) -> (plain: bool)
    requires
        start <= end <= chars.len(),
    ensures
        plain == is_plain_segment(chars@.subrange(start as int, end as int)),
{
    let ghost segment = chars@.subrange(start as int, end as int);
    proof {
        reveal_strlit("..");
    }
    if start == end {
        return false;
    }
    if end - start == 2 && chars[start] == '.' && chars[start + 1] == '.' {
        assert(segment =~= ".."@);
        return false;
    }
    assert(segment.len() == 2 ==> segment[0] == chars@[start as int] && segment[1] == chars@[start
        + 1]);
    true
}

/// Whether the characters from `from` on are a relative path that stays below where
/// it starts.
fn is_below(chars: &Vec<char>, from: usize) -> (below: bool)
    requires
        from <= chars.len(),
    ensures
        below == stays_below(chars@.skip(from as int)),
{
    let ghost path = chars@.skip(from as int);
    if from == chars.len() {
        return false;
    }
    let mut start: usize = from;
    let mut i: usize = from;
    proof {
        assert(path.take(0) =~= Seq::empty());
        assert(chars@.subrange(start as int, i as int) =~= Seq::empty());
    }
    while i < chars.len()
        invariant
            from <= start <= i <= chars.len(),
            path == chars@.skip(from as int),
            path.len() > 0,
            segments(path.take(i - from)).len() > 0,
            segments(path.take(i - from)).last() == chars@.subrange(start as int, i as int),
            forall|k: int|
                0 <= k < segments(path.take(i - from)).len() - 1 ==> is_plain_segment(
                    #[trigger] segments(path.take(i - from))[k],
                ),
        decreases chars.len() - i,
    {
        let ghost before = segments(path.take(i - from));
        proof {
            assert(path.take(i - from + 1).drop_last() =~= path.take(i - from));
            assert(path.take(i - from + 1).last() == chars@[i as int]);
        }
        if chars[i] == '/' {
            if !is_plain(chars, start, i) {
                proof {
                    let ghost n = i - from + 1;
                    let ghost k = before.len() - 1;
                    assert(segments(path.take(n)) == before.push(Seq::empty()));
                    lemma_segments_kept(path, n, k);
                    assert(!is_plain_segment(segments(path)[k]));
                }
                return false;
            }
            i += 1;
            start = i;
            proof {
                assert(segments(path.take(i - from)) == before.push(Seq::empty()));
                assert(chars@.subrange(start as int, i as int) =~= Seq::empty());
                assert forall|k: int| 0 <= k < segments(path.take(i - from)).len() - 1 implies is_plain_segment(
                    #[trigger] segments(path.take(i - from))[k],
                ) by {
                    assert(segments(path.take(i - from))[k] == before[k]);
                }
            }
        } else {
            i += 1;
            proof {
                let ghost now = segments(path.take(i - from));
                assert(now == before.drop_last().push(before.last().push(chars@[i - 1])));
                assert(chars@.subrange(start as int, i as int) =~= chars@.subrange(
                    start as int,
                    i - 1,
                ).push(chars@[i - 1]));
                assert forall|k: int| 0 <= k < now.len() - 1 implies is_plain_segment(
                    #[trigger] now[k],
                ) by {
                    assert(now[k] == before[k]);
                }
            }
        }
    }
    assert(path.take(i - from) =~= path);
    let below: bool = is_plain(chars, start, i);
    proof {
        let ghost all = segments(path);
        assert(all.last() == all[all.len() - 1]);
    }
    below
}

/// The file that the path of a request names, relative to the widget's directory;
/// `None` where it names none, or leads upwards.
pub fn requested_path(path: &str) -> (file: Option<String>)
    ensures
        file.deep_view() == requested_file(path@),
{
    let chars: Vec<char> = chars_of(path);
    let mut from: usize = 0;
    assert(chars@.skip(0) =~= chars@);
    while from < chars.len() && chars[from] == '/'
        invariant
            chars@ == path@,
            from <= chars.len(),
            without_leading_slashes(chars@.skip(from as int)) == without_leading_slashes(path@),
        decreases chars.len() - from,
    {
        assert(chars@.skip(from as int).drop_first() =~= chars@.skip(from + 1));
        from += 1;
    }
    assert(from < chars.len() ==> chars@.skip(from as int).first() == chars@[from as int]);
    if is_below(&chars, from) {
        assert(path@.subrange(from as int, chars.len() as int) =~= path@.skip(from as int));
        Some(path.substring_char(from, chars.len()).to_owned())
    } else {
        None
    }
}

/// Parts put together again, with a slash between each two.
pub open spec fn joined(parts: Seq<Seq<char>>) -> Seq<char>
    decreases parts.len(),
{
    if parts.len() == 0 {
        Seq::empty()
    } else if parts.len() == 1 {
        parts[0]
    } else {
        joined(parts.drop_last()) + seq!['/'] + parts.last()
    }
}

/// The last of the parts goes to the end of what they are together.
proof fn lemma_joined_last(parts: Seq<Seq<char>>, c: char)
    requires
        parts.len() > 0,
    ensures
        joined(parts.drop_last().push(parts.last().push(c))) == joined(parts).push(c),
        joined(parts.push(Seq::empty())) == joined(parts).push('/'),
{
    let longer = parts.drop_last().push(parts.last().push(c));
    assert(longer.drop_last() =~= parts.drop_last());
    assert(parts.push(Seq::empty()).drop_last() =~= parts);
    if parts.len() > 1 {
        assert(joined(parts.drop_last()) + seq!['/'] + parts.last().push(c) =~= (joined(
            parts.drop_last(),
        ) + seq!['/'] + parts.last()).push(c));
    }
    assert(joined(parts) + seq!['/'] + Seq::empty() =~= joined(parts).push('/'));
}

/// The parts of a path hold no slash, and put together again they are the path.
pub proof fn law_segments_are_the_path(path: Seq<char>)
    ensures
        segments(path).len() > 0,
        joined(segments(path)) == path,
        forall|i: int|
            0 <= i < segments(path).len() ==> !(#[trigger] segments(path)[i]).contains('/'),
    decreases path.len(),
{
    if path.len() > 0 {
        let front = path.drop_last();
        let parts = segments(front);
        law_segments_are_the_path(front);
        lemma_joined_last(parts, path.last());
        assert(path =~= front.push(path.last()));
        assert forall|i: int| 0 <= i < segments(path).len() implies !(#[trigger] segments(
            path,
        )[i]).contains('/') by {
            if path.last() == '/' {
                if i < parts.len() {
                    assert(segments(path)[i] == parts[i]);
                }
            } else if i < parts.len() - 1 {
                assert(segments(path)[i] == parts[i]);
            } else {
                let last = parts.last().push(path.last());
                assert(!parts[parts.len() - 1].contains('/'));
                assert forall|j: int| 0 <= j < last.len() implies last[j] != '/' by {
                    if j < parts.last().len() {
                        assert(parts.last().contains(parts.last()[j]));
                    }
                }
            }
        }
    }
}

/// A path that is served does not lead out of the widget's directory: no part of it is
/// empty or leads upwards, and it does not begin at the root.
pub proof fn law_served_paths_stay_below(path: Seq<char>)
    ensures
        requested_file(path) matches Some(file) ==> file.len() > 0 && file[0] != '/' && forall|i: int|
            0 <= i < segments(file).len() ==> (#[trigger] segments(file)[i]).len() > 0 && segments(
                file,
            )[i] != ".."@,
    decreases path.len(),
{
    if path.len() > 0 && path.first() == '/' {
        law_served_paths_stay_below(path.drop_first());
    }
}

/// The widget and the file that a request is for.
#[derive(Debug, PartialEq)]
pub struct WidgetRoute {
    pub id: String,
    pub file: String,
}

/// The widget and the file that a request is for: the host of its address is the
/// widget, the path the file. `None` where the request is for nothing that is served.
pub fn route_request(host: Option<&str>, path: &str) -> (route: Option<WidgetRoute>)
    ensures
        route is Some <==> host is Some && requested_file(path@) is Some,
        route matches Some(r) ==> r.id@ == host->0@ && Some(r.file@) == requested_file(path@),
{
    match (host, requested_path(path)) {
        (Some(id), Some(file)) => Some(WidgetRoute { id: id.to_owned(), file }),
        _ => None,
    }
}

/// The widget that a request is for, and the file of it; `None` where there is no such
/// widget, or the request is for nothing that is served.
pub open spec fn requested<D>(
    host: Option<Seq<char>>,
    path: Seq<char>,
    manifests: Seq<WidgetManifest<D>>,
) -> Option<(WidgetManifest<D>, Seq<char>)> {
    match (host, requested_file(path)) {
        (Some(id), Some(file)) => match first_widget(manifests, id) {
            Some(manifest) => Some((manifest, file)),
            None => None,
        },
        _ => None,
    }
}

/// The widget that a request is for, among those that there are, and the file of it;
/// `None` where there is no such widget, or the request is for nothing that is served.
pub fn requested_widget<D>(
    host: Option<&str>,
    path: &str,
    manifests: Vec<WidgetManifest<D>>,
) -> (found: Option<(WidgetManifest<D>, String)>)
    ensures
        match found {
            Some(pair) => requested(host_text(host), path@, manifests@) == Some((pair.0, pair.1@)),
            None => requested(host_text(host), path@, manifests@) is None,
        },
{
    match route_request(host, path) {
        Some(route) => match find_widget(manifests, route.id.as_str()) {
            Some(manifest) => Some((manifest, route.file)),
            None => None,
        },
        None => None,
    }
}

/// The characters of a host, where there is one.
pub open spec fn host_text(host: Option<&str>) -> Option<Seq<char>> {
    match host {
        Some(id) => Some(id@),
        None => None,
    }
}

/// The directory that serves a widget: the one chosen for its appearance, if there is
/// one and it is a directory still, or else the widget's own.
pub open spec fn serving_dir<D>(chosen: Option<D>, chosen_is_dir: bool, own: D) -> D {
    match chosen {
        Some(dir) => if chosen_is_dir {
            dir
        } else {
            own
        },
        None => own,
    }
}

/// The directory that serves a widget: the one chosen for its appearance, if there is
/// one and it is a directory still, or else the widget's own.
pub fn widget_serve_dir<D>(chosen: Option<D>, chosen_is_dir: bool, own: D) -> (dir: D)
    ensures
        dir == serving_dir(chosen, chosen_is_dir, own),
{
    match chosen {
        Some(dir) => if chosen_is_dir {
            dir
        } else {
            own
        },
        None => own,
    }
}

/// Whether a file lies in a directory or below it, part by part of their paths.
pub open spec fn lies_inside(dir: Seq<Seq<char>>, file: Seq<Seq<char>>) -> bool {
    dir.len() <= file.len() && file.take(dir.len() as int) == dir
}

/// Whether a file lies in a directory or below it. Both are given by the parts of their
/// paths, links followed.
pub fn is_inside(dir: &Vec<String>, file: &Vec<String>) -> (inside: bool)
    ensures
        inside == lies_inside(dir.deep_view(), file.deep_view()),
{
    if dir.len() > file.len() {
        return false;
    }
    let ghost front = file.deep_view().take(dir@.len() as int);
    let mut i: usize = 0;
    while i < dir.len()
        invariant
            i <= dir.len() <= file.len(),
            front == file.deep_view().take(dir@.len() as int),
            forall|j: int| 0 <= j < i ==> (#[trigger] front[j]) == dir.deep_view()[j],
        decreases dir.len() - i,
    {
        assert(front[i as int] == file@[i as int]@);
        assert(dir.deep_view()[i as int] == dir@[i as int]@);
        if !same_text(dir[i].as_str(), file[i].as_str()) {
            return false;
        }
        i += 1;
    }
    assert(front =~= dir.deep_view());
    true
}

/// What was found where the file of a request should be.
#[derive(Debug, PartialEq)]
pub struct FoundFile {
    /// The name of the file, without the directory that it is in.
    pub name: String,
    /// The parts of the path of the directory that serves the widget, links followed.
    pub dir: Vec<String>,
    /// The parts of the path of the file, links followed.
    pub path: Vec<String>,
    /// What it holds; `None` where it was not, or could not be, read.
    pub bytes: Option<Vec<u8>>,
}

/// The answer to a request.
#[derive(Debug, PartialEq)]
pub struct WidgetResponse {
    pub status: u16,
    pub content_type: Option<&'static str>,
    pub content_security_policy: Option<&'static str>,
    pub body: Vec<u8>,
}

/// Whether something is served: a file in the widget's directory, that could be read.
pub open spec fn is_served(file: Option<FoundFile>) -> bool {
    file matches Some(found) && lies_inside(found.dir.deep_view(), found.path.deep_view())
        && found.bytes is Some
}

/// The status of the answer to a request, given what was found.
pub open spec fn response_status(file: Option<FoundFile>) -> u16 {
    if is_served(file) {
        STATUS_OK
    } else {
        STATUS_NOT_FOUND
    }
}

/// What the answer to a request holds, given what was found.
pub open spec fn response_body(file: Option<FoundFile>) -> Seq<u8> {
    if is_served(file) {
        file->0.bytes->0@
    } else {
        Seq::empty()
    }
}

/// The answer to a request, given what was found; `None` where nothing was looked for,
/// or nothing found.
///
/// Every answer carries the policy, whatever it holds, and one that holds nothing too.
pub fn widget_protocol_response(file: Option<FoundFile>) -> (response: WidgetResponse)
    ensures
        response.status == response_status(file),
        response.body@ == response_body(file),
        response.content_security_policy matches Some(policy) && policy@
            == CONTENT_SECURITY_POLICY@,
        is_served(file) ==> (response.content_type matches Some(kind) && kind@ == content_type(
            extension(file->0.name@),
        )),
        !is_served(file) ==> response.content_type is None,
{
    if let Some(found) = file {
        if is_inside(&found.dir, &found.path) {
            if let Some(bytes) = found.bytes {
                return WidgetResponse {
                    status: STATUS_OK,
                    content_type: Some(widget_content_type(found.name.as_str())),
                    content_security_policy: Some(CONTENT_SECURITY_POLICY),
                    body: bytes,
                };
            }
        }
    }
    WidgetResponse {
        status: STATUS_NOT_FOUND,
        content_type: None,
        content_security_policy: Some(CONTENT_SECURITY_POLICY),
        body: Vec::new(),
    }
}

/// What is found for a request: `chosen` gives the directory chosen for a widget's
/// appearance, `is_dir` whether it is one still, and `disk` what is found in a directory
/// under a relative path.
pub open spec fn found_for<D>(
    host: Option<Seq<char>>,
    path: Seq<char>,
    manifests: Seq<WidgetManifest<D>>,
    chosen: spec_fn(Seq<char>) -> Option<D>,
    is_dir: spec_fn(D) -> bool,
    disk: spec_fn(D, Seq<char>) -> Option<FoundFile>,
) -> Option<FoundFile> {
    match requested(host, path, manifests) {
        Some(pair) => {
            let other = chosen(pair.0.id@);
            disk(serving_dir(other, other is Some && is_dir(other->0), pair.0.dir), pair.1)
        },
        None => None,
    }
}

/// The first widget of an id is one of the widgets, and has the id.
proof fn lemma_first_widget_is_one<D>(manifests: Seq<WidgetManifest<D>>, id: Seq<char>)
    ensures
        first_widget(manifests, id) matches Some(manifest) ==> manifests.contains(manifest)
            && manifest.id@ == id,
    decreases manifests.len(),
{
    if manifests.len() > 0 {
        if manifests[0].id@ == id {
            assert(manifests.contains(manifests[0]));
        } else {
            let rest = manifests.drop_first();
            lemma_first_widget_is_one(rest, id);
            if let Some(manifest) = first_widget(rest, id) {
                let i = choose|i: int| 0 <= i < rest.len() && rest[i] == manifest;
                assert(manifests[i + 1] == manifest);
            }
        }
    }
}

/// No request reads a file outside the directory of the widget that it is for. Where a
/// file is served, the host of the request is the id of a widget that there is, and what
/// is served is what was found in the directory that serves this widget, under a path
/// that does not lead upwards, in a place that lies inside the directory with all links
/// followed. All else is answered with nothing.
pub proof fn law_only_files_of_the_widget_are_served<D>(
    host: Option<Seq<char>>,
    path: Seq<char>,
    manifests: Seq<WidgetManifest<D>>,
    chosen: spec_fn(Seq<char>) -> Option<D>,
    is_dir: spec_fn(D) -> bool,
    disk: spec_fn(D, Seq<char>) -> Option<FoundFile>,
)
    ensures
        ({
            let found = found_for(host, path, manifests, chosen, is_dir, disk);
            &&& response_status(found) == STATUS_OK ==> {
                let (manifest, file) = requested(host, path, manifests)->0;
                let other = chosen(manifest.id@);
                let dir = serving_dir(other, other is Some && is_dir(other->0), manifest.dir);
                &&& manifests.contains(manifest)
                &&& host == Some(manifest.id@)
                &&& stays_below(file)
                &&& found == disk(dir, file)
                &&& found matches Some(f) && lies_inside(f.dir.deep_view(), f.path.deep_view())
                &&& found->0.bytes matches Some(bytes) && response_body(found) == bytes@
            }
            &&& response_status(found) != STATUS_OK ==> response_body(found).len() == 0
                && response_status(found) == STATUS_NOT_FOUND
        }),
{
    if let Some(id) = host {
        lemma_first_widget_is_one(manifests, id);
    }
}

/// Every file that was found inside the directory of the widget, part by part of the paths,
/// and that could be read is answered with what it holds, whatever its name. All else is
/// answered with nothing.
pub proof fn law_files_inside_are_served(file: FoundFile)
    ensures
        ({
            let dir = file.dir.deep_view();
            let path = file.path.deep_view();
            let inside = dir.len() <= path.len() && forall|i: int|
                0 <= i < dir.len() ==> #[trigger] path[i] == dir[i];
            &&& inside && file.bytes is Some ==> response_status(Some(file)) == 200
                && response_body(Some(file)) == file.bytes->0@
            &&& !inside || file.bytes is None ==> response_status(Some(file)) == 404
                && response_body(Some(file)).len() == 0
        }),
        response_status(None) == 404,
        response_body(None).len() == 0,
{
    let dir = file.dir.deep_view();
    let path = file.path.deep_view();
    if dir.len() <= path.len() {
        let front = path.take(dir.len() as int);
        if forall|i: int| 0 <= i < dir.len() ==> #[trigger] path[i] == dir[i] {
            assert(front =~= dir);
        }
        if front == dir {
            assert forall|i: int| 0 <= i < dir.len() implies #[trigger] path[i] == dir[i] by {
                assert(front[i] == path[i]);
            }
        }
    }
}

/// What lies inside a directory is what its path goes on to: the directory itself, and
/// whatever is reached from it by more parts. Two directories that differ in a part have
/// nothing in common below that.
pub proof fn law_inside_is_what_the_path_goes_on_to(
    dir: Seq<Seq<char>>,
    rest: Seq<Seq<char>>,
    file: Seq<Seq<char>>,
)
    ensures
        lies_inside(dir, dir + rest),
        lies_inside(dir, file) <==> file == dir + file.skip(dir.len() as int) && dir.len()
            <= file.len(),
{
    assert((dir + rest).take(dir.len() as int) =~= dir);
    if lies_inside(dir, file) {
        assert(file =~= file.take(dir.len() as int) + file.skip(dir.len() as int));
    }
    if file == dir + file.skip(dir.len() as int) {
        assert((dir + file.skip(dir.len() as int)).take(dir.len() as int) =~= dir);
    }
}

/// The extension of a name is what stands behind its last dot, unless the name begins with
/// it. A name has none where it has no dot but one that it begins with.
pub proof fn law_an_extension_stands_behind_the_last_dot(
    base: Seq<char>,
    ext: Seq<char>,
    first: char,
)
    requires
        !ext.contains('.'),
    ensures
        base.len() > 0 ==> extension(base + seq!['.'] + ext) == Some(ext),
        extension(seq![first] + ext) is None,
        extension(Seq::empty()) is None,
{
    let name = base + seq!['.'] + ext;
    let dot = base.len() as int;
    assert forall|j: int| dot < j < name.len() implies name[j] != '.' by {
        assert(name[j] == ext[j - dot - 1]);
        assert(ext.contains(ext[j - dot - 1]));
    }
    assert(is_last_dot(name, dot));
    if base.len() > 0 {
        let chosen = choose|i: int| 0 < i && is_last_dot(name, i);
        assert(chosen == dot);
        assert(name.skip(dot + 1) =~= ext);
    }
    let bare = seq![first] + ext;
    assert forall|i: int| 0 < i implies !is_last_dot(bare, i) by {
        if i < bare.len() {
            assert(bare[i] == ext[i - 1]);
            assert(ext.contains(ext[i - 1]));
        }
    }
}

/// The kind of content of a file goes by what its name ends with: pages, styles, scripts,
/// data, pictures and sounds have their own, whatever stands before the dot, and a file with
/// any other extension, or with none, is plain bytes.
pub proof fn law_content_goes_by_the_extension(base: Seq<char>, ext: Seq<char>)
    requires
        base.len() > 0,
        !ext.contains('.'),
    ensures
        content_type(extension(base + ".html"@)) == "text/html"@,
        content_type(extension(base + ".css"@)) == "text/css"@,
        content_type(extension(base + ".js"@)) == "application/javascript"@,
        content_type(extension(base + ".json"@)) == "application/json"@,
        content_type(extension(base + ".png"@)) == "image/png"@,
        content_type(extension(base + ".svg"@)) == "image/svg+xml"@,
        content_type(extension(base + ".wav"@)) == "audio/wav"@,
        ({
            &&& ext != "html"@
            &&& ext != "css"@
            &&& ext != "js"@
            &&& ext != "json"@
            &&& ext != "png"@
            &&& ext != "svg"@
            &&& ext != "wav"@
        }) ==> content_type(extension(base + seq!['.'] + ext)) == "application/octet-stream"@,
        content_type(None) == "application/octet-stream"@,
{
    lemma_extensions();
    law_an_extension_stands_behind_the_last_dot(base, ext, '.');
    assert(base + ".html"@ =~= base + seq!['.'] + "html"@);
    law_an_extension_stands_behind_the_last_dot(base, "html"@, '.');
    assert(base + ".css"@ =~= base + seq!['.'] + "css"@);
    law_an_extension_stands_behind_the_last_dot(base, "css"@, '.');
    assert(base + ".js"@ =~= base + seq!['.'] + "js"@);
    law_an_extension_stands_behind_the_last_dot(base, "js"@, '.');
    assert(base + ".json"@ =~= base + seq!['.'] + "json"@);
    law_an_extension_stands_behind_the_last_dot(base, "json"@, '.');
    assert(base + ".png"@ =~= base + seq!['.'] + "png"@);
    law_an_extension_stands_behind_the_last_dot(base, "png"@, '.');
    assert(base + ".svg"@ =~= base + seq!['.'] + "svg"@);
    law_an_extension_stands_behind_the_last_dot(base, "svg"@, '.');
    assert(base + ".wav"@ =~= base + seq!['.'] + "wav"@);
    law_an_extension_stands_behind_the_last_dot(base, "wav"@, '.');
}

/// The extensions, spelt out.
proof fn lemma_extensions()
    ensures
        ".html"@ == seq!['.'] + "html"@ && !"html"@.contains('.'),
        ".css"@ == seq!['.'] + "css"@ && !"css"@.contains('.'),
        ".js"@ == seq!['.'] + "js"@ && !"js"@.contains('.'),
        ".json"@ == seq!['.'] + "json"@ && !"json"@.contains('.'),
        ".png"@ == seq!['.'] + "png"@ && !"png"@.contains('.'),
        ".svg"@ == seq!['.'] + "svg"@ && !"svg"@.contains('.'),
        ".wav"@ == seq!['.'] + "wav"@ && !"wav"@.contains('.'),
        "html"@.len() == 4 && "html"@[0] == 'h',
        "css"@.len() == 3 && "css"@[0] == 'c',
        "js"@.len() == 2,
        "json"@.len() == 4 && "json"@[0] == 'j',
        "png"@.len() == 3 && "png"@[0] == 'p',
        "svg"@.len() == 3 && "svg"@[0] == 's',
        "wav"@.len() == 3 && "wav"@[0] == 'w',
{
    reveal_strlit("html");
    reveal_strlit(".html");
    reveal_strlit("css");
    reveal_strlit(".css");
    reveal_strlit("js");
    reveal_strlit(".js");
    reveal_strlit("json");
    reveal_strlit(".json");
    reveal_strlit("png");
    reveal_strlit(".png");
    reveal_strlit("svg");
    reveal_strlit(".svg");
    reveal_strlit("wav");
    reveal_strlit(".wav");
    assert(".html"@ =~= seq!['.'] + "html"@);
    assert(".css"@ =~= seq!['.'] + "css"@);
    assert(".js"@ =~= seq!['.'] + "js"@);
    assert(".json"@ =~= seq!['.'] + "json"@);
    assert(".png"@ =~= seq!['.'] + "png"@);
    assert(".svg"@ =~= seq!['.'] + "svg"@);
    assert(".wav"@ =~= seq!['.'] + "wav"@);
}

/// The parts of a path that is put together from parts are these parts.
proof fn lemma_segments_of_joined(parts: Seq<Seq<char>>)
    requires
        parts.len() > 0,
        forall|i: int| 0 <= i < parts.len() ==> !(#[trigger] parts[i]).contains('/'),
    ensures
        segments(joined(parts)) == parts,
    decreases parts.len(),
{
    let last = parts.last();
    assert(!parts[parts.len() - 1].contains('/'));
    if parts.len() == 1 {
        lemma_segments_go_on(Seq::empty(), last);
        assert(segments(Seq::empty()) =~= seq![Seq::<char>::empty()]);
        assert(Seq::empty() + last =~= last);
        assert(segments(Seq::<char>::empty()).drop_last() =~= Seq::empty());
        assert(Seq::<char>::empty() + last =~= last);
        assert(segments(joined(parts)) =~= parts);
    } else {
        let front = parts.drop_last();
        assert(forall|i: int| 0 <= i < front.len() ==> front[i] == parts[i]);
        lemma_segments_of_joined(front);
        let begun = joined(front).push('/');
        assert(begun.drop_last() =~= joined(front));
        assert(segments(begun) == front.push(Seq::empty()));
        lemma_segments_go_on(begun, last);
        assert(front.push(Seq::empty()).drop_last() =~= front);
        assert(Seq::<char>::empty() + last =~= last);
        assert(joined(parts) =~= begun + last);
        assert(segments(joined(parts)) =~= parts);
    }
}

/// A path that goes on without a slash goes on with its last part.
proof fn lemma_segments_go_on(path: Seq<char>, more: Seq<char>)
    requires
        !more.contains('/'),
    ensures
        segments(path).len() > 0,
        segments(path + more) == segments(path).drop_last().push(segments(path).last() + more),
    decreases more.len(),
{
    law_segments_are_the_path(path);
    let parts = segments(path);
    if more.len() == 0 {
        assert(path + more =~= path);
        assert(parts.last() + more =~= parts.last());
        assert(parts.drop_last().push(parts.last()) =~= parts);
    } else {
        let shorter = more.drop_last();
        let last = more.last();
        assert forall|i: int| 0 <= i < shorter.len() implies shorter[i] != '/' by {
            assert(more[i] == shorter[i]);
            assert(more.contains(more[i]));
        }
        assert(more.contains(last));
        lemma_segments_go_on(path, shorter);
        assert((path + more).drop_last() =~= path + shorter);
        let before = parts.drop_last().push(parts.last() + shorter);
        assert(before.drop_last() =~= parts.drop_last());
        assert((parts.last() + shorter).push(last) =~= parts.last() + more);
    }
}

/// A path that begins with slashes is the same without them.
proof fn lemma_leading_slashes(n: nat, path: Seq<char>)
    requires
        path.len() > 0 ==> path[0] != '/',
    ensures
        without_leading_slashes(Seq::new(n, |i: int| '/') + path) == path,
    decreases n,
{
    let slashes = Seq::new(n, |i: int| '/');
    if n == 0 {
        assert(slashes + path =~= path);
    } else {
        let fewer = Seq::new((n - 1) as nat, |i: int| '/');
        assert((slashes + path).drop_first() =~= fewer + path);
        assert((slashes + path).first() == '/');
        lemma_leading_slashes((n - 1) as nat, path);
    }
}

/// A request is for the file that its path names, whatever the parts of the path: they are
/// put together with slashes, behind any number of slashes, and the file is this path. It is
/// for nothing exactly where a part is empty or leads upwards.
pub proof fn law_a_path_names_its_file(n: nat, parts: Seq<Seq<char>>)
    requires
        parts.len() > 0,
        parts[0].len() > 0,
        forall|i: int| 0 <= i < parts.len() ==> !(#[trigger] parts[i]).contains('/'),
    ensures
        (forall|i: int| 0 <= i < parts.len() ==> (#[trigger] parts[i]).len() > 0 && parts[i] != ".."@)
            ==> requested_file(Seq::new(n, |i: int| '/') + joined(parts)) == Some(joined(parts)),
        (exists|i: int| 0 <= i < parts.len() && ((#[trigger] parts[i]).len() == 0 || parts[i]
            == ".."@)) ==> requested_file(Seq::new(n, |i: int| '/') + joined(parts)) is None,
        requested_file(Seq::new(n, |i: int| '/')) is None,
{
    let slashes = Seq::new(n, |i: int| '/');
    let path = joined(parts);
    lemma_joined_begins(parts);
    assert(parts[0].contains(parts[0][0]));
    lemma_leading_slashes(n, path);
    lemma_leading_slashes(n, Seq::empty());
    assert(slashes + Seq::empty() =~= slashes);
    lemma_segments_of_joined(parts);
}

/// A path begins with the first of its parts.
proof fn lemma_joined_begins(parts: Seq<Seq<char>>)
    requires
        parts.len() > 0,
        parts[0].len() > 0,
    ensures
        joined(parts).len() > 0,
        joined(parts)[0] == parts[0][0],
    decreases parts.len(),
{
    if parts.len() > 1 {
        lemma_joined_begins(parts.drop_last());
    }
}

/// A request is for the first widget that has its host for an id, and for the file that its
/// path names. It is for nothing where there is no host, no such widget, or no such file.
pub proof fn law_a_request_is_for_the_widget_of_its_host<D>(
    id: Seq<char>,
    path: Seq<char>,
    manifests: Seq<WidgetManifest<D>>,
    n: int,
)
    ensures
        requested(None, path, manifests) is None,
        requested_file(path) is None ==> requested(Some(id), path, manifests) is None,
        (forall|i: int| 0 <= i < manifests.len() ==> (#[trigger] manifests[i]).id@ != id)
            ==> requested(Some(id), path, manifests) is None,
        requested_file(path) is Some && 0 <= n < manifests.len() && manifests[n].id@ == id && (
        forall|i: int| 0 <= i < n ==> (#[trigger] manifests[i]).id@ != id) ==> requested(
            Some(id),
            path,
            manifests,
        ) == Some((manifests[n], requested_file(path)->0)),
{
    law_the_first_widget_is_found(manifests, id, n);
}

/// The directory chosen for a widget's appearance serves it while it is a directory, and the
/// widget's own directory serves it in every other case.
pub proof fn law_the_chosen_directory_serves<D>(chosen: D, own: D)
    ensures
        serving_dir(Some(chosen), true, own) == chosen,
        serving_dir(Some(chosen), false, own) == own,
        serving_dir(None, true, own) == own,
        serving_dir(None, false, own) == own,
{
}

} // verus!
