//! The plan for the listener.
//!
//! The platform tells the function where to listen and waits for a socket to
//! appear there. So that it never finds a socket that nobody listens on, the
//! function binds a socket under another name in the same directory, opens it
//! to everybody, and only then links the announced name to it. This module
//! works out the names; the caller does what the plan says, in its order.

use crate::errors::FunctionError;
use crate::text::chars_of;
use crate::text::joined;
use crate::text::option_view;
use crate::text::string_of;
use vstd::prelude::*;

verus! {

/// The only format of invocation that the kit supports.
pub const HTTP_STREAM: &'static str = "http-stream";

/// The scheme that the announced address must have.
pub const UNIX_SCHEME: &'static str = "unix";

/// What the name of the socket begins with.
pub const PHONY_PREFIX: &'static str = "phony";

/// The permissions of the socket: everybody may read and write.
pub const SOCKET_MODE: u32 = 0o666;

/// What is said, before the format, of a format that is not supported.
pub const BAD_FORMAT: &'static str = "Unsupported FN_FORMAT specified: ";

/// What is said when no address was announced.
pub const NO_LISTENER: &'static str = "FN_LISTENER not found in env";

/// What is said, before the address, of an address that cannot be used.
pub const BAD_LISTENER: &'static str = "Malformed FN_LISTENER specified: ";

/// What is said, before the cause, when the socket could not be bound.
pub const BIND_FAILED: &'static str = "Error while creating the listener: ";

/// What is said, before the cause, when the socket could not be opened to
/// everybody.
pub const MODE_FAILED: &'static str = "Error while giving permissions to socket file: ";

/// What is said, before the cause, when the link could not be made.
pub const LINK_FAILED: &'static str = "Error while creating symlink: ";

/// What the plan needs of a URL: its scheme, its path, and the URL as the
/// parser writes it.
pub struct UrlParts {
    pub scheme: String,
    pub path: String,
    pub text: String,
}

/// What a plan says, as plain values.
pub struct PlanView {
    pub target: Seq<char>,
    pub phony: Seq<char>,
    pub link: Seq<char>,
    pub mode: u32,
}

/// What to do to listen: remove what is at `target` and at `phony`, bind a
/// socket at `phony`, give it the permissions `mode`, and make `target` a
/// symbolic link to `link`, which names the socket within its directory.
#[derive(Debug, Clone, PartialEq, Eq)]
pub struct ListenerPlan {
    pub target: String,
    pub phony: String,
    pub link: String,
    pub mode: u32,
}

impl View for ListenerPlan {
    type V = PlanView;

    open spec fn view(&self) -> PlanView {
        PlanView { target: self.target@, phony: self.phony@, link: self.link@, mode: self.mode }
    }
}

/// What `url::Url::parse` makes of a text: nothing if it is no URL, else the
/// scheme, the path and the URL as the parser writes it.
pub uninterp spec fn parsed_url(text: Seq<char>) -> Option<(Seq<char>, Seq<char>, Seq<char>)>;

/// The parts of optional URL parts, as plain values.
pub open spec fn parts_view(parts: Option<UrlParts>) -> Option<(Seq<char>, Seq<char>, Seq<char>)> {
    match parts {
        Some(p) => Some((p.scheme@, p.path@, p.text@)),
        None => None,
    }
}

/// `url::Url::parse`, with `scheme`, `path` and `as_str` of what it returns.
/// The result depends on the text alone; it is given its name.
#[verifier::external_body]
fn parse_url(text: &str) -> (r: Option<UrlParts>)
    ensures
        parts_view(r) == parsed_url(text@),
{
    match url::Url::parse(text) {
        Ok(url) => Some(
            UrlParts {
                scheme: url.scheme().to_owned(),
                path: url.path().to_owned(),
                text: url.as_str().to_owned(),
            },
        ),
        Err(_) => None,
    }
}

/// Whether the format of invocation is one that the kit supports: the
/// streaming one, or none.
pub open spec fn format_supported(format: Option<Seq<char>>) -> bool {
    match format {
        Some(f) => f == HTTP_STREAM@ || f.len() == 0,
        None => true,
    }
}

/// Where the last slash of a path stands; before the path if it has none.
pub open spec fn last_slash(path: Seq<char>) -> int
    decreases path.len(),
{
    if path.len() == 0 {
        -1
    } else if path.last() == '/' {
        path.len() - 1
    } else {
        last_slash(path.drop_last())
    }
}

/// The directory of a path: what stands up to its last slash, the slash
/// included. A path without a slash has the empty directory.
pub open spec fn dir_of(path: Seq<char>) -> Seq<char> {
    path.subrange(0, last_slash(path) + 1)
}

/// The name of a path: what stands behind its last slash.
pub open spec fn name_of(path: Seq<char>) -> Seq<char> {
    path.subrange(last_slash(path) + 1, path.len() as int)
}

/// The plan for a target: the socket is named like the target with `phony`
/// before the name, in the same directory.
pub open spec fn plan_of(target: Seq<char>) -> PlanView {
    PlanView {
        target,
        phony: dir_of(target) + PHONY_PREFIX@ + name_of(target),
        link: PHONY_PREFIX@ + name_of(target),
        mode: SOCKET_MODE,
    }
}

/// Whether a URL can be listened on: its scheme is `unix`, and its path is
/// not empty.
pub open spec fn usable(parts: (Seq<char>, Seq<char>, Seq<char>)) -> bool {
    &&& parts.0 == UNIX_SCHEME@
    &&& parts.1.len() > 0
}

/// What is said of a failure to plan, if planning fails: the format is looked
/// at first, then the address.
pub open spec fn refusal(format: Option<Seq<char>>, listener: Option<Seq<char>>) -> Option<
    Seq<char>,
> {
    if !format_supported(format) {
        Some(BAD_FORMAT@ + format.unwrap())
    } else if listener.is_none() {
        Some(NO_LISTENER@)
    } else if parsed_url(listener.unwrap()).is_none() {
        Some(BAD_LISTENER@ + listener.unwrap())
    } else if !usable(parsed_url(listener.unwrap()).unwrap()) {
        Some(BAD_LISTENER@ + parsed_url(listener.unwrap()).unwrap().2)
    } else {
        None
    }
}

/// The plan for a URL that can be listened on.
pub open spec fn plan_for(parts: (Seq<char>, Seq<char>, Seq<char>)) -> PlanView {
    plan_of(parts.1)
}

/// Finds where the name of a path begins: behind its last slash.
fn name_start(path: &Vec<char>) -> (r: usize)
    ensures
        r == last_slash(path@) + 1,
        r <= path.len(),
{
    let mut start: usize = 0;
    let mut i: usize = 0;
    assert(path@.subrange(0, 0) =~= Seq::empty());
    while i < path.len()
        invariant
            i <= path.len(),
            start <= i,
            start == last_slash(path@.subrange(0, i as int)) + 1,
        decreases path.len() - i,
    {
        proof {
            let after = path@.subrange(0, i + 1);
            assert(after.drop_last() =~= path@.subrange(0, i as int));
            assert(after.last() == path@[i as int]);
        }
        if path[i] == '/' {
            start = i + 1;
        }
        i = i + 1;
    }
    assert(path@.subrange(0, i as int) =~= path@);
    start
}

/// Copies a part of a text.
fn part(text: &Vec<char>, from: usize, to: usize) -> (r: Vec<char>)
    requires
        from <= to <= text.len(),
    ensures
        r@ == text@.subrange(from as int, to as int),
{
    let mut out: Vec<char> = Vec::new();
    let mut i: usize = from;
    while i < to
        invariant
            from <= i <= to,
            to <= text.len(),
            out@ == text@.subrange(from as int, i as int),
        decreases to - i,
    {
        out.push(text[i]);
        i = i + 1;
        assert(out@ =~= text@.subrange(from as int, i as int));
    }
    out
}

/// A failure to start with the given words.
fn refuse(words: &str, what: &str) -> (r: FunctionError)
    ensures
        r is Initialization,
        r.detail() == words@ + what@,
{
    FunctionError::Initialization { inner: joined(words, what) }
}

/// The plan for a parsed URL, or the failure to start that reports why the
/// URL cannot be listened on.
pub fn plan_from_parts(parts: UrlParts) -> (r: Result<ListenerPlan, FunctionError>)
    ensures
        usable((parts.scheme@, parts.path@, parts.text@)) ==> r is Ok && r->Ok_0@ == plan_for(
            (parts.scheme@, parts.path@, parts.text@),
        ),
        !usable((parts.scheme@, parts.path@, parts.text@)) ==> r is Err
            && r->Err_0 is Initialization && r->Err_0.detail() == BAD_LISTENER@ + parts.text@,
{
    if !(*parts.scheme.as_str() == *UNIX_SCHEME) || parts.path.as_str().is_empty() {
        return Err(refuse(BAD_LISTENER, parts.text.as_str()));
    }
    let path = chars_of(parts.path.as_str());
    let start = name_start(&path);
    let dir = string_of(&part(&path, 0, start));
    let name = string_of(&part(&path, start, path.len()));
    let link = joined(PHONY_PREFIX, name.as_str());
    let phony = joined(dir.as_str(), link.as_str());
    assert(phony@ =~= dir_of(parts.path@) + PHONY_PREFIX@ + name_of(parts.path@));
    Ok(ListenerPlan { target: parts.path, phony, link, mode: SOCKET_MODE })
}

/// Works the plan out from what the environment says: the format of
/// invocation, which must be the streaming one or none, and the address to
/// listen on, which must be a `unix` URL with a path. Planning fails with a
/// failure to start, and with it only.
pub fn plan(format: Option<String>, listener: Option<String>) -> (r: Result<
    ListenerPlan,
    FunctionError,
>)
    ensures
        r is Err == refusal(option_view(format), option_view(listener)).is_some(),
        r is Err ==> r->Err_0 is Initialization && r->Err_0.detail() == refusal(
            option_view(format),
            option_view(listener),
        ).unwrap(),
        r is Ok ==> r->Ok_0@ == plan_for(parsed_url(listener.unwrap()@).unwrap()),
{
    if let Some(f) = &format {
        if !(*f.as_str() == *HTTP_STREAM) && !f.as_str().is_empty() {
            return Err(refuse(BAD_FORMAT, f.as_str()));
        }
    }
    let address = match listener {
        Some(address) => address,
        None => {
            return Err(FunctionError::Initialization { inner: NO_LISTENER.to_owned() });
        },
    };
    match parse_url(address.as_str()) {
        Some(parts) => plan_from_parts(parts),
        None => Err(refuse(BAD_LISTENER, address.as_str())),
    }
}

/// The failure to start when the socket could not be bound.
pub fn bind_failure(cause: &str) -> (r: FunctionError)
    ensures
        r is Initialization,
        r.detail() == BIND_FAILED@ + cause@,
{
    refuse(BIND_FAILED, cause)
}

/// The failure to start when the socket could not be opened to everybody.
pub fn permission_failure(cause: &str) -> (r: FunctionError)
    ensures
        r is Initialization,
        r.detail() == MODE_FAILED@ + cause@,
{
    refuse(MODE_FAILED, cause)
}

/// The failure to start when the link could not be made.
pub fn link_failure(cause: &str) -> (r: FunctionError)
    ensures
        r is Initialization,
        r.detail() == LINK_FAILED@ + cause@,
{
    refuse(LINK_FAILED, cause)
}

/// Whatever the target: the link names the socket within its directory, the
/// socket lies in the directory of the target under the name of the link, and
/// the socket is open to everybody.
pub proof fn lemma_plan_links_socket(target: Seq<char>)
    ensures
        plan_of(target).target == target,
        plan_of(target).link == PHONY_PREFIX@ + name_of(target),
        plan_of(target).phony == dir_of(target) + plan_of(target).link,
        dir_of(target) + name_of(target) == target,
        plan_of(target).mode == 0o666,
{
    lemma_last_slash_bounds(target);
    assert(dir_of(target) + name_of(target) =~= target);
    assert(plan_of(target).phony =~= dir_of(target) + plan_of(target).link);
}

/// The last slash stands within the path, or just before it.
pub proof fn lemma_last_slash_bounds(path: Seq<char>)
    ensures
        -1 <= last_slash(path) < path.len(),
    decreases path.len(),
{
    if path.len() > 0 && path.last() != '/' {
        lemma_last_slash_bounds(path.drop_last());
    }
}

} // verus!
