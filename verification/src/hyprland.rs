//! Hyprland compositor event socket: where it lives and how its event lines
//! read.

use vstd::prelude::*;
use crate::paths::{join, path_join};
use crate::text::{
    chars_of, chars_start_with, opt_str_view, from_chars, parse_u32, parse_u32_spec, slice_chars, split_once, dec, lemma_dec_digits, is_ws, is_digit, trim_start, trim_end, unsigned_digits,
    split_once_chars, starts_with, trim, trim_str,
};

verus! {

/// An event read from Hyprland's event socket (`socket2`).
#[derive(Debug, Clone, PartialEq)]
pub enum HyprlandEvent {
    WorkspaceChanged(u32),
    ActiveWindowChanged(String),
    WindowOpened(String),
    WindowClosed(String),
}

/// The mathematical form of a `HyprlandEvent`: its text payloads as
/// character sequences.
pub enum EventView {
    WorkspaceChanged(u32),
    ActiveWindowChanged(Seq<char>),
    WindowOpened(Seq<char>),
    WindowClosed(Seq<char>),
}

impl View for HyprlandEvent {
    type V = EventView;

    open spec fn view(&self) -> EventView {
        match self {
            HyprlandEvent::WorkspaceChanged(n) => EventView::WorkspaceChanged(*n),
            HyprlandEvent::ActiveWindowChanged(s) => EventView::ActiveWindowChanged(s@),
            HyprlandEvent::WindowOpened(s) => EventView::WindowOpened(s@),
            HyprlandEvent::WindowClosed(s) => EventView::WindowClosed(s@),
        }
    }
}

/// The view of an optional event.
pub open spec fn opt_event_view(e: Option<HyprlandEvent>) -> Option<EventView> {
    match e {
        Some(ev) => Some(ev@),
        None => None,
    }
}

pub open spec fn workspace_tag() -> Seq<char> {
    seq!['w', 'o', 'r', 'k', 's', 'p', 'a', 'c', 'e', '>', '>']
}

pub open spec fn activewindow_tag() -> Seq<char> {
    seq!['a', 'c', 't', 'i', 'v', 'e', 'w', 'i', 'n', 'd', 'o', 'w', '>', '>']
}

pub open spec fn openwindow_tag() -> Seq<char> {
    seq!['o', 'p', 'e', 'n', 'w', 'i', 'n', 'd', 'o', 'w', '>', '>']
}

pub open spec fn closewindow_tag() -> Seq<char> {
    seq!['c', 'l', 'o', 's', 'e', 'w', 'i', 'n', 'd', 'o', 'w', '>', '>']
}

/// The fields of `openwindow>>ADDRESS,WORKSPACE,CLASS,TITLE`, split as
/// `splitn(4, ',')` splits them: the first three commas separate the
/// fields and the title keeps any further commas. `None` when there are
/// fewer than four fields.
pub open spec fn open_window_fields(rest: Seq<char>) -> Option<(Seq<char>, Seq<char>)> {
    match split_once(rest, ',') {
        Some((_addr, r1)) => match split_once(r1, ',') {
            Some((_ws, r2)) => match split_once(r2, ',') {
                Some((class, title)) => Some((class, title)),
                None => None,
            },
            None => None,
        },
        None => None,
    }
}

/// The event that a line of the event socket describes. The line is
/// trimmed first; a `workspace>>` line whose id is not a `u32`, an
/// `openwindow>>` line with fewer than four fields, and every other tag
/// give `None`. An opened window is reported as `TITLE,CLASS`.
pub open spec fn event_of(line: Seq<char>) -> Option<EventView> {
    let l = trim(line);
    if starts_with(l, workspace_tag()) && parse_u32_spec(l.skip(workspace_tag().len() as int)) is Some {
        Some(EventView::WorkspaceChanged(parse_u32_spec(l.skip(workspace_tag().len() as int)).unwrap()))
    } else if starts_with(l, activewindow_tag()) {
        Some(EventView::ActiveWindowChanged(l.skip(activewindow_tag().len() as int)))
    } else if starts_with(l, openwindow_tag()) && open_window_fields(l.skip(openwindow_tag().len() as int)) is Some {
        let (class, title) = open_window_fields(l.skip(openwindow_tag().len() as int)).unwrap();
        Some(EventView::WindowOpened(title + seq![','] + class))
    } else if starts_with(l, closewindow_tag()) {
        Some(EventView::WindowClosed(l.skip(closewindow_tag().len() as int)))
    } else {
        None
    }
}

/// Parses one line read from the Hyprland event socket.
pub fn parse_event(line: &str) -> (res: Option<HyprlandEvent>)
    ensures
        opt_event_view(res) == event_of(line@),
{
    let l = trim_str(line);
    let ls = l.as_slice();
    let ghost lv = l@;
    let ws_tag = chars_of("workspace>>");
    let aw_tag = chars_of("activewindow>>");
    let ow_tag = chars_of("openwindow>>");
    let cw_tag = chars_of("closewindow>>");
    proof {
        reveal_strlit("workspace>>");
        reveal_strlit("activewindow>>");
        reveal_strlit("openwindow>>");
        reveal_strlit("closewindow>>");
        assert(ws_tag@ =~= workspace_tag());
        assert(aw_tag@ =~= activewindow_tag());
        assert(ow_tag@ =~= openwindow_tag());
        assert(cw_tag@ =~= closewindow_tag());
    }
    if chars_start_with(ls, ws_tag.as_slice()) {
        let rest = slice_chars(ls, ws_tag.len(), ls.len());
        assert(rest@ =~= lv.skip(workspace_tag().len() as int));
        if let Some(id) = parse_u32(rest.as_slice()) {
            return Some(HyprlandEvent::WorkspaceChanged(id));
        }
    }
    if chars_start_with(ls, aw_tag.as_slice()) {
        let rest = slice_chars(ls, aw_tag.len(), ls.len());
        assert(rest@ =~= lv.skip(activewindow_tag().len() as int));
        return Some(HyprlandEvent::ActiveWindowChanged(from_chars(rest.as_slice())));
    }
    if chars_start_with(ls, ow_tag.as_slice()) {
        let rest = slice_chars(ls, ow_tag.len(), ls.len());
        assert(rest@ =~= lv.skip(openwindow_tag().len() as int));
        if let Some((_addr, r1)) = split_once_chars(rest.as_slice(), ',') {
            if let Some((_ws, r2)) = split_once_chars(r1.as_slice(), ',') {
                if let Some((class, title)) = split_once_chars(r2.as_slice(), ',') {
                    let mut payload = from_chars(title.as_slice());
                    crate::text::push_char(&mut payload, ',');
                    let class_s = from_chars(class.as_slice());
                    payload.append(class_s.as_str());
                    proof {
                        assert(payload@ =~= title@ + seq![','] + class@);
                    }
                    return Some(HyprlandEvent::WindowOpened(payload));
                }
            }
        }
    }
    if chars_start_with(ls, cw_tag.as_slice()) {
        let rest = slice_chars(ls, cw_tag.len(), ls.len());
        assert(rest@ =~= lv.skip(closewindow_tag().len() as int));
        return Some(HyprlandEvent::WindowClosed(from_chars(rest.as_slice())));
    }
    None
}

/// Client of the Hyprland event socket.
pub struct HyprlandClient {
    socket_path: Option<String>,
}

/// Where Hyprland's event socket lives:
/// `$XDG_RUNTIME_DIR/hypr/$HYPRLAND_INSTANCE_SIGNATURE/.socket2.sock`,
/// known only when both variables are set.
pub open spec fn event_socket_of(instance_sig: Option<Seq<char>>, runtime_dir: Option<Seq<char>>) -> Option<Seq<char>> {
    match (instance_sig, runtime_dir) {
        (Some(sig), Some(dir)) => Some(
            join(join(join(dir, seq!['h', 'y', 'p', 'r']), sig), seq!['.', 's', 'o', 'c', 'k', 'e', 't', '2', '.', 's', 'o', 'c', 'k']),
        ),
        _ => None,
    }
}

impl View for HyprlandClient {
    type V = Option<Seq<char>>;

    /// The event socket path, when known.
    closed spec fn view(&self) -> Option<Seq<char>> {
        opt_str_view(self.socket_path)
    }
}

impl HyprlandClient {
    /// The event socket path for the given `HYPRLAND_INSTANCE_SIGNATURE` and
    /// `XDG_RUNTIME_DIR` values.
    pub fn find_event_socket(instance_sig: Option<&str>, runtime_dir: Option<&str>) -> (res: Option<String>)
        ensures
            opt_str_view(res) == event_socket_of(
                match instance_sig { Some(s) => Some(s@), None => None },
                match runtime_dir { Some(s) => Some(s@), None => None },
            ),
    {
        match (instance_sig, runtime_dir) {
            (Some(sig), Some(dir)) => {
                let a = path_join(dir, "hypr");
                let b = path_join(a.as_str(), sig);
                let c = path_join(b.as_str(), ".socket2.sock");
                proof {
                    reveal_strlit("hypr");
                    reveal_strlit(".socket2.sock");
                    assert("hypr"@ =~= seq!['h', 'y', 'p', 'r']);
                    assert(".socket2.sock"@ =~= seq!['.', 's', 'o', 'c', 'k', 'e', 't', '2', '.', 's', 'o', 'c', 'k']);
                }
                Some(c)
            },
            _ => None,
        }
    }

    /// A client for the session described by the environment values
    /// `HYPRLAND_INSTANCE_SIGNATURE` and `XDG_RUNTIME_DIR` (each `None`
    /// when unset).
    pub fn new(instance_sig: Option<&str>, runtime_dir: Option<&str>) -> (res: Self)
        ensures
            res@ == event_socket_of(
                match instance_sig { Some(s) => Some(s@), None => None },
                match runtime_dir { Some(s) => Some(s@), None => None },
            ),
    {
        HyprlandClient { socket_path: Self::find_event_socket(instance_sig, runtime_dir) }
    }

    /// The event socket path, when known.
    pub fn socket_path(&self) -> (res: Option<String>)
        ensures
            opt_str_view(res) == self@,
    {
        match &self.socket_path {
            Some(p) => Some(p.clone()),
            None => None,
        }
    }
}

proof fn lemma_trim_no_ws(s: Seq<char>)
    requires
        forall|i: int| 0 <= i < s.len() ==> !is_ws(#[trigger] s[i]),
    ensures
        trim(s) == s,
{
    if s.len() > 0 {
        assert(!is_ws(s[0]));
        assert(!is_ws(s.last()));
    }
    assert(trim_start(s) == s);
    assert(trim_end(s) == s);
}

proof fn lemma_first_char_differs(l: Seq<char>, tag: Seq<char>)
    requires
        l.len() > 0,
        tag.len() > 0,
        l[0] != tag[0],
    ensures
        !starts_with(l, tag),
{
    if tag.len() <= l.len() {
        assert(l.take(tag.len() as int)[0] == l[0]);
    }
}

/// A workspace event written as `workspace>>N` reads back as workspace `N`.
pub proof fn lemma_workspace_roundtrip(n: u32)
    ensures
        event_of(workspace_tag() + dec(n as nat)) == Some(EventView::WorkspaceChanged(n)),
{
    let d = dec(n as nat);
    lemma_dec_digits(n as nat);
    let l = workspace_tag() + d;
    assert forall|i: int| 0 <= i < l.len() implies !is_ws(#[trigger] l[i]) by {
        if i >= workspace_tag().len() {
            assert(l[i] == d[i - workspace_tag().len()]);
            assert(is_digit(d[i - workspace_tag().len()]));
        }
    }
    lemma_trim_no_ws(l);
    assert(l.take(workspace_tag().len() as int) =~= workspace_tag());
    assert(l.skip(workspace_tag().len() as int) =~= d);
    assert(is_digit(d[0]));
    assert(unsigned_digits(d) == d);
}

/// A window-closed event written as `closewindow>>ADDRESS` (an address
/// without whitespace) reads back with that address.
pub proof fn lemma_closewindow_roundtrip(addr: Seq<char>)
    requires
        forall|i: int| 0 <= i < addr.len() ==> !is_ws(#[trigger] addr[i]),
    ensures
        event_of(closewindow_tag() + addr) == Some(EventView::WindowClosed(addr)),
{
    let l = closewindow_tag() + addr;
    assert forall|i: int| 0 <= i < l.len() implies !is_ws(#[trigger] l[i]) by {
        if i >= closewindow_tag().len() {
            assert(l[i] == addr[i - closewindow_tag().len()]);
        }
    }
    lemma_trim_no_ws(l);
    assert(l.take(closewindow_tag().len() as int) =~= closewindow_tag());
    assert(l.skip(closewindow_tag().len() as int) =~= addr);
    lemma_first_char_differs(l, workspace_tag());
    lemma_first_char_differs(l, activewindow_tag());
    lemma_first_char_differs(l, openwindow_tag());
}

} // verus!
