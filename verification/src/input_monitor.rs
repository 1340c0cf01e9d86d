//! Decisions of the input monitor: what a key press records, how the
//! keyboard state is corrected before a key is mapped to a character, how typed text is
//! buffered per app, and when time spent in an app is recorded.
use vstd::prelude::*;
use crate::text::{chars_eq, chars_of, slice_chars, string_of};

verus! {

/// `std::sync::mpsc::Sender`, held opaquely.
#[verifier::external_type_specification]
#[verifier::external_body]
#[verifier::reject_recursive_types(T)]
pub struct ExSender<T>(std::sync::mpsc::Sender<T>);

/// A key press as recorded: a typed character, or a tag such as "[ENTER]".
pub enum KeyEvent {
    Char(char),
    Special(&'static str),
}

/// The text a key press adds to the buffer.
pub open spec fn event_text(e: KeyEvent) -> Seq<char> {
    match e {
        KeyEvent::Char(c) => seq![c],
        KeyEvent::Special(t) => t@,
    }
}

// ---------------------------------------------------------------------------
// Platform queries (the portable fallbacks used where no window system is
// queried)
// ---------------------------------------------------------------------------

/// Starts the keyboard hook; there is none to start here.
pub fn start_hook_thread(_sender: std::sync::mpsc::Sender<KeyEvent>) {
}

/// The cursor position; (0, 0) here.
pub fn get_cursor_pos() -> (r: (i32, i32))
    ensures
        r == (0i32, 0i32),
{
    (0, 0)
}

/// The title of the window in front; "Unknown" here.
pub fn get_foreground_title() -> (r: String)
    ensures
        r@ == "Unknown"@,
{
    "Unknown".to_string()
}

/// The app owning the window in front; "Unknown" here.
pub fn get_foreground_app_name() -> (r: String)
    ensures
        r@ == "Unknown"@,
{
    "Unknown".to_string()
}

/// The screen size in pixels; 1920 x 1080 here.
pub fn get_screen_resolution_inner() -> (r: (i32, i32))
    ensures
        r == (1920i32, 1080i32),
{
    (1920, 1080)
}

/// The screen size in pixels.
pub fn get_screen_resolution() -> (r: (i32, i32))
    ensures
        r == (1920i32, 1080i32),
{
    get_screen_resolution_inner()
}

// ---------------------------------------------------------------------------
// Key presses
// ---------------------------------------------------------------------------

/// What a pressed virtual key leads to.
pub enum KeyAction {
    /// A modifier alone: nothing is recorded.
    Ignore,
    /// A special key, recorded as its tag.
    Special(&'static str),
    /// A printable key: mapped to a character with the keyboard state.
    Printable,
}

/// Shift, Control, Alt (either side), Caps Lock and the Windows keys.
pub open spec fn is_modifier_vk(vk: u32) -> bool {
    vk == 0x10 || vk == 0x11 || vk == 0x12 || vk == 0x14 || (0xa0 <= vk <= 0xa5) || vk == 0x5b || vk
        == 0x5c
}

/// The tag of a special key.
pub open spec fn special_tag(vk: u32) -> Option<Seq<char>> {
    if vk == 0x08 {
        Some("[BS]"@)
    } else if vk == 0x09 {
        Some("[TAB]"@)
    } else if vk == 0x0d {
        Some("[ENTER]"@)
    } else if vk == 0x1b {
        Some("[ESC]"@)
    } else if vk == 0x25 {
        Some("[LEFT]"@)
    } else if vk == 0x26 {
        Some("[UP]"@)
    } else if vk == 0x27 {
        Some("[RIGHT]"@)
    } else if vk == 0x28 {
        Some("[DOWN]"@)
    } else if vk == 0x2e {
        Some("[DEL]"@)
    } else {
        None
    }
}

/// Classifies a pressed virtual key: modifiers are ignored, the special keys
/// (backspace, tab, enter, escape, arrows, delete) become tags, and every
/// other key is mapped to a character.
pub fn classify_vk(vk: u32) -> (r: KeyAction)
    ensures
        is_modifier_vk(vk) ==> r is Ignore,
        (!is_modifier_vk(vk) && special_tag(vk) is Some) ==> (r matches KeyAction::Special(s)
            && s@ == special_tag(vk)->0),
        (!is_modifier_vk(vk) && special_tag(vk) is None) ==> r is Printable,
{
    if vk == 0x10 || vk == 0x11 || vk == 0x12 || vk == 0x14 || (0xa0 <= vk && vk <= 0xa5) || vk
        == 0x5b || vk == 0x5c {
        KeyAction::Ignore
    } else if vk == 0x08 {
        KeyAction::Special("[BS]")
    } else if vk == 0x09 {
        KeyAction::Special("[TAB]")
    } else if vk == 0x0d {
        KeyAction::Special("[ENTER]")
    } else if vk == 0x1b {
        KeyAction::Special("[ESC]")
    } else if vk == 0x25 {
        KeyAction::Special("[LEFT]")
    } else if vk == 0x26 {
        KeyAction::Special("[UP]")
    } else if vk == 0x27 {
        KeyAction::Special("[RIGHT]")
    } else if vk == 0x28 {
        KeyAction::Special("[DOWN]")
    } else if vk == 0x2e {
        KeyAction::Special("[DEL]")
    } else {
        KeyAction::Printable
    }
}

/// The keyboard-state bytes to overwrite, as (virtual key, value), from the
/// real-time state of the modifiers: Shift (0x80 when down, and then each
/// side that is down; all three cleared when up), Control and Alt (0x80 or
/// 0), and the Caps Lock toggle (1 or 0). A side of Shift that is up while
/// Shift is down is left as it was.
pub open spec fn modifier_writes_spec(
    shift: bool,
    lshift: bool,
    rshift: bool,
    ctrl: bool,
    alt: bool,
    caps_on: bool,
) -> Seq<(usize, u8)> {
    (if shift {
        seq![(0x10usize, 0x80u8)] + (if lshift {
            seq![(0xa0usize, 0x80u8)]
        } else {
            seq![]
        }) + (if rshift {
            seq![(0xa1usize, 0x80u8)]
        } else {
            seq![]
        })
    } else {
        seq![(0x10usize, 0u8), (0xa0usize, 0u8), (0xa1usize, 0u8)]
    }) + seq![
        (0x11usize, if ctrl { 0x80u8 } else { 0u8 }),
        (0x12usize, if alt { 0x80u8 } else { 0u8 }),
        (0x14usize, if caps_on { 1u8 } else { 0u8 }),
    ]
}

/// The keyboard-state corrections (see `modifier_writes_spec`), applied in order.
pub fn modifier_writes(shift: bool, lshift: bool, rshift: bool, ctrl: bool, alt: bool, caps_on: bool) -> (r:
    Vec<(usize, u8)>)
    ensures
        r@ == modifier_writes_spec(shift, lshift, rshift, ctrl, alt, caps_on),
{
    let mut w: Vec<(usize, u8)> = Vec::new();
    if shift {
        w.push((0x10, 0x80));
        if lshift {
            w.push((0xa0, 0x80));
        }
        if rshift {
            w.push((0xa1, 0x80));
        }
    } else {
        w.push((0x10, 0));
        w.push((0xa0, 0));
        w.push((0xa1, 0));
    }
    w.push((0x11, if ctrl { 0x80 } else { 0 }));
    w.push((0x12, if alt { 0x80 } else { 0 }));
    w.push((0x14, if caps_on { 1 } else { 0 }));
    assert(w@ =~= modifier_writes_spec(shift, lshift, rshift, ctrl, alt, caps_on));
    w
}

/// Unicode control characters (general category Cc).
pub open spec fn is_control_char(c: char) -> bool {
    let u = c as u32;
    u <= 0x1f || (0x7f <= u <= 0x9f)
}

/// Typed characters are kept and control characters dropped: every
/// character from the space U+0020 to `~` U+007E, and every one from
/// U+00A0 on, is recorded as typed; exactly the C0 controls (below U+0020),
/// DEL and the C1 controls (U+007F to U+009F) are dropped.
pub proof fn lemma_accepted_chars(c: char)
    ensures
        (c as u32) < 0x20 ==> is_control_char(c),
        0x20 <= (c as u32) < 0x7f ==> !is_control_char(c),
        0x7f <= (c as u32) < 0xa0 ==> is_control_char(c),
        (c as u32) >= 0xa0 ==> !is_control_char(c),
        !is_control_char(' '),
{
}

/// A mapped character is recorded unless it is a control character
/// (as produced by Ctrl+key combinations).
pub fn accept_char(c: char) -> (r: Option<KeyEvent>)
    ensures
        is_control_char(c) ==> r is None,
        !is_control_char(c) ==> r == Some(KeyEvent::Char(c)),
{
    let u = c as u32;
    if u <= 0x1f || (0x7f <= u && u <= 0x9f) {
        None
    } else {
        Some(KeyEvent::Char(c))
    }
}

// ---------------------------------------------------------------------------
// App names
// ---------------------------------------------------------------------------

/// The last `\`-separated part of a path.
pub open spec fn last_component(path: Seq<char>) -> Seq<char> {
    match crate::text::rfind(path, seq!['\\']) {
        Some(i) => path.skip(i + 1),
        None => path,
    }
}

pub open spec fn has_suffix(s: Seq<char>, suf: Seq<char>) -> bool {
    suf.len() <= s.len() && s.skip(s.len() - suf.len()) == suf
}

/// The app name of an executable's path: its file name without ".exe" or ".EXE"
/// ("C:\...\Code.exe" gives "Code").
pub open spec fn app_name_spec(path: Seq<char>) -> Seq<char> {
    let f = last_component(path);
    if has_suffix(f, ".exe"@) {
        f.take(f.len() - 4)
    } else if has_suffix(f, ".EXE"@) {
        f.take(f.len() - 4)
    } else {
        f
    }
}

/// The app name of an executable's path (see `app_name_spec`).
pub fn app_name_from_path(path: &str) -> (r: String)
    ensures
        r@ == app_name_spec(path@),
{
    proof {
        reveal_strlit(".exe");
        reveal_strlit(".EXE");
    }
    let p = chars_of(path);
    let sep = vec!['\\'];
    assert(sep@ =~= seq!['\\']);
    let pl = p.len();
    let f = match crate::text::rfind_chars(&p, &sep) {
        Some(i) => {
            proof {
                crate::text::lemma_rfind_below_props(p@, seq!['\\'], p@.len() - 1);
            }
            slice_chars(&p, i + 1, pl)
        },
        None => p,
    };
    assert(f@ == last_component(path@));
    let n = f.len();
    if n >= 4 {
        let tail = slice_chars(&f, n - 4, n);
        assert(tail@ == f@.skip(n - 4));
        let lower_ext = chars_of(".exe");
        let upper_ext = chars_of(".EXE");
        if chars_eq(&tail, &lower_ext) || chars_eq(&tail, &upper_ext) {
            let stem = slice_chars(&f, 0, n - 4);
            return string_of(stem.as_slice());
        }
    }
    string_of(f.as_slice())
}

// ---------------------------------------------------------------------------
// Typing buffer
// ---------------------------------------------------------------------------

/// Text typed since the last flush, per app: (app, latest window title,
/// text), each app once, in order of first key press.
pub struct KeystrokeBuffer {
    entries: Vec<(String, String, String)>,
}

pub type BufferEntry = (Seq<char>, Seq<char>, Seq<char>);

/// The buffer after a key press in `app` while `title` was in front: the
/// app's entry takes the title and the key's text, or a new entry is added.
pub open spec fn buffer_add(b: Seq<BufferEntry>, app: Seq<char>, title: Seq<char>, text: Seq<char>) -> Seq<
    BufferEntry,
>
    decreases b.len(),
{
    if b.len() == 0 {
        seq![(app, title, text)]
    } else if b[0].0 == app {
        seq![(app, title, b[0].2 + text)] + b.drop_first()
    } else {
        seq![b[0]] + buffer_add(b.drop_first(), app, title, text)
    }
}

/// No app has two entries.
pub open spec fn apps_distinct(b: Seq<BufferEntry>) -> bool {
    forall|i: int, j: int| 0 <= i < j < b.len() ==> #[trigger] b[i].0 != #[trigger] b[j].0
}

impl KeystrokeBuffer {
    pub closed spec fn view(&self) -> Seq<BufferEntry> {
        self.entries@.map_values(|e: (String, String, String)| (e.0@, e.1@, e.2@))
    }

    /// An empty buffer.
    pub fn new() -> (r: Self)
        ensures
            r.view() == Seq::<BufferEntry>::empty(),
    {
        let r = KeystrokeBuffer { entries: Vec::new() };
        assert(r.view() =~= Seq::<BufferEntry>::empty());
        r
    }

    /// Whether nothing was typed since the last flush.
    pub fn is_empty(&self) -> (r: bool)
        ensures
            r == (self.view().len() == 0),
    {
        self.entries.len() == 0
    }

    /// Records a key press in `app` while the window `title` was in front.
    pub fn record(&mut self, app: String, title: String, event: &KeyEvent)
        ensures
            final(self).view() == buffer_add(old(self).view(), app@, title@, event_text(*event)),
    {
        let ghost b0 = self.view();
        let text: Vec<char> = match event {
            KeyEvent::Char(c) => {
                let mut v: Vec<char> = Vec::new();
                v.push(*c);
                v
            },
            KeyEvent::Special(t) => chars_of(t),
        };
        assert(text@ =~= event_text(*event));
        let app_chars = chars_of(app.as_str());
        let mut i: usize = 0;
        assert(b0.skip(0) =~= b0);
        assert(b0.subrange(0, 0) + buffer_add(b0, app@, title@, text@) =~= buffer_add(
            b0,
            app@,
            title@,
            text@,
        ));
        while i < self.entries.len()
            invariant
                self.view() == b0,
                b0 == old(self).view(),
                text@ == event_text(*event),
                app_chars@ == app@,
                i <= b0.len(),
                buffer_add(b0, app@, title@, text@) == b0.subrange(0, i as int) + buffer_add(
                    b0.skip(i as int),
                    app@,
                    title@,
                    text@,
                ),
            decreases b0.len() - i,
        {
            let name = chars_of(self.entries[i].0.as_str());
            let ghost rest = b0.skip(i as int);
            assert(rest[0] == b0[i as int]);
            assert(b0[i as int].0 == self.entries@[i as int].0@);
            if chars_eq(&name, &app_chars) {
                let mut t = chars_of(self.entries[i].2.as_str());
                crate::text::push_all(&mut t, text.as_slice());
                let entry = (self.entries[i].0.clone(), title, string_of(t.as_slice()));
                let ghost ev = (entry.0@, entry.1@, entry.2@);
                self.entries.set(i, entry);
                assert(rest.drop_first() =~= b0.skip(i + 1));
                assert(ev == (app@, title@, b0[i as int].2 + text@));
                assert(rest.len() > 0 && rest[0].0 == app@);
                assert(buffer_add(rest, app@, title@, text@) == seq![ev] + rest.drop_first());
                assert(self.view() =~= b0.subrange(0, i as int) + (seq![ev] + rest.drop_first()));
                return;
            }
            assert(rest.drop_first() =~= b0.skip(i + 1));
            assert(b0.subrange(0, i as int) + (seq![b0[i as int]] + buffer_add(
                b0.skip(i + 1),
                app@,
                title@,
                text@,
            )) =~= b0.subrange(0, i + 1) + buffer_add(b0.skip(i + 1), app@, title@, text@));
            i = i + 1;
        }
        let ghost nv = (app@, title@, text@);
        self.entries.push((app, title, string_of(text.as_slice())));
        assert(self.view() =~= b0.subrange(0, i as int) + seq![nv]);
    }

    /// Takes all entries, leaving the buffer empty.
    pub fn drain(&mut self) -> (r: Vec<(String, String, String)>)
        ensures
            r@.map_values(|e: (String, String, String)| (e.0@, e.1@, e.2@)) == old(self).view(),
            final(self).view() == Seq::<BufferEntry>::empty(),
    {
        let mut out: Vec<(String, String, String)> = Vec::new();
        std::mem::swap(&mut out, &mut self.entries);
        assert(self.view() =~= Seq::<BufferEntry>::empty());
        out
    }
}

/// Recording key presses never gives an app two entries, and each press
/// adds its text to the end of its app's entry.
pub proof fn lemma_buffer_add(b: Seq<BufferEntry>, app: Seq<char>, title: Seq<char>, text: Seq<char>)
    requires
        apps_distinct(b),
    ensures
        apps_distinct(buffer_add(b, app, title, text)),
        exists|i: int|
            0 <= i < buffer_add(b, app, title, text).len() && #[trigger] buffer_add(b, app, title, text)[i]
                == (app, title, (if exists|j: int| 0 <= j < b.len() && b[j].0 == app {
                b[choose|j: int| 0 <= j < b.len() && b[j].0 == app].2
            } else {
                seq![]
            }) + text),
        forall|i: int| 0 <= i < b.len() && b[i].0 != app ==> buffer_add(b, app, title, text).contains(
            #[trigger] b[i],
        ),
    decreases b.len(),
{
    let r = buffer_add(b, app, title, text);
    if b.len() == 0 {
        assert(r[0] == (app, title, seq![] + text));
    } else if b[0].0 == app {
        assert(r[0] == (app, title, b[0].2 + text));
        let j = choose|j: int| 0 <= j < b.len() && b[j].0 == app;
        assert(j == 0);
        assert forall|i: int, k: int| 0 <= i < k < r.len() implies #[trigger] r[i].0 != #[trigger] r[k].0 by {
            if i == 0 {
                assert(r[k] == b[k]);
            } else {
                assert(r[i] == b[i] && r[k] == b[k]);
            }
        }
        assert forall|i: int| 0 <= i < b.len() && b[i].0 != app implies r.contains(#[trigger] b[i]) by {
            assert(r[i] == b[i]);
        }
    } else {
        let rest = b.drop_first();
        assert(apps_distinct(rest)) by {
            assert forall|i: int, k: int| 0 <= i < k < rest.len() implies #[trigger] rest[i].0
                != #[trigger] rest[k].0 by {
                assert(rest[i] == b[i + 1] && rest[k] == b[k + 1]);
            }
        }
        lemma_buffer_add(rest, app, title, text);
        let rr = buffer_add(rest, app, title, text);
        let wit = choose|i: int|
            0 <= i < rr.len() && #[trigger] rr[i] == (app, title, (if exists|j: int|
                0 <= j < rest.len() && rest[j].0 == app {
                rest[choose|j: int| 0 <= j < rest.len() && rest[j].0 == app].2
            } else {
                seq![]
            }) + text);
        assert(r[wit + 1] == rr[wit]);
        if exists|j: int| 0 <= j < rest.len() && rest[j].0 == app {
            let j1 = choose|j: int| 0 <= j < rest.len() && rest[j].0 == app;
            let j2 = choose|j: int| 0 <= j < b.len() && b[j].0 == app;
            assert(b[j1 + 1].0 == app);
            assert(j2 == j1 + 1) by {
                if j2 != j1 + 1 {
                    assert(b[j2].0 == b[j1 + 1].0);
                }
            }
        } else {
            assert forall|j: int| 0 <= j < b.len() implies b[j].0 != app by {
                if j > 0 {
                    assert(rest[j - 1] == b[j]);
                }
            }
        }
        // Every key of rr is a key of rest, or the new app.
        assert forall|k: int| 0 <= k < rr.len() && rr[k].0 != app implies rest.contains(#[trigger] rr[k]) by {
            lemma_buffer_keys(rest, app, title, text, k);
        }
        assert forall|i: int, k: int| 0 <= i < k < r.len() implies #[trigger] r[i].0 != #[trigger] r[k].0 by {
            if i == 0 {
                assert(r[k] == rr[k - 1]);
                if rr[k - 1].0 != app {
                    let m = choose|m: int| 0 <= m < rest.len() && rest[m] == rr[k - 1];
                    assert(rest[m] == b[m + 1]);
                }
            } else {
                assert(r[i] == rr[i - 1] && r[k] == rr[k - 1]);
            }
        }
        assert forall|i: int| 0 <= i < b.len() && b[i].0 != app implies r.contains(#[trigger] b[i]) by {
            if i == 0 {
                assert(r[0] == b[0]);
            } else {
                assert(rest[i - 1] == b[i]);
                assert(rr.contains(rest[i - 1]));
                let m = choose|m: int| 0 <= m < rr.len() && rr[m] == rest[i - 1];
                assert(r[m + 1] == rr[m]);
            }
        }
    }
}

/// Every entry of the buffer after a key press is an earlier entry or the pressed app's.
pub proof fn lemma_buffer_keys(b: Seq<BufferEntry>, app: Seq<char>, title: Seq<char>, text: Seq<char>, k: int)
    requires
        0 <= k < buffer_add(b, app, title, text).len(),
        buffer_add(b, app, title, text)[k].0 != app,
    ensures
        b.contains(buffer_add(b, app, title, text)[k]),
    decreases b.len(),
{
    let r = buffer_add(b, app, title, text);
    if b.len() == 0 {
    } else if b[0].0 == app {
        assert(r[k] == b[k]);
    } else {
        if k == 0 {
            assert(r[0] == b[0]);
        } else {
            let rest = b.drop_first();
            assert(r[k] == buffer_add(rest, app, title, text)[k - 1]);
            lemma_buffer_keys(rest, app, title, text, k - 1);
            let m = choose|m: int| 0 <= m < rest.len() && rest[m] == r[k];
            assert(b[m + 1] == r[k]);
        }
    }
}

// ---------------------------------------------------------------------------
// Window focus
// ---------------------------------------------------------------------------

/// The app in front and its latest window title.
pub struct FocusTracker {
    pub last_app: String,
    pub last_title: String,
}

/// What observing the app in front decided.
pub struct FocusChange {
    /// The app in front changed: its timer starts over.
    pub switched: bool,
    /// Time to record for the app that was left: (app, title, seconds).
    pub finished: Option<(String, String, i64)>,
}

/// A focus state or poll as plain values: (app, title).
pub type FocusView = (Seq<char>, Seq<char>);

/// A poll of the app in front: (app, title, seconds since the current app
/// came to front).
pub type FocusPoll = (Seq<char>, Seq<char>, i64);

/// What observing poll `p` in state `s` records: the time spent in the app
/// that was left, when the app changed, the time is positive and the app
/// has a name.
pub open spec fn focus_record(s: FocusView, p: FocusPoll) -> Option<(Seq<char>, Seq<char>, i64)> {
    if p.0 != s.0 && p.2 > 0 && s.0.len() > 0 {
        Some((s.0, s.1, p.2))
    } else {
        None
    }
}

/// The state after observing `polls` from `start`: the last poll's app and
/// title, or `start` when there is none.
pub open spec fn focus_after(start: FocusView, polls: Seq<FocusPoll>) -> FocusView {
    if polls.len() == 0 {
        start
    } else {
        (polls.last().0, polls.last().1)
    }
}

/// What each poll of `polls` records, observed in order from `start`.
pub open spec fn focus_records(start: FocusView, polls: Seq<FocusPoll>) -> Seq<
    Option<(Seq<char>, Seq<char>, i64)>,
> {
    Seq::new(polls.len(), |i: int| focus_record(focus_after(start, polls.take(i)), polls[i]))
}

/// Over any sequence of polls, a time record is made only at a poll where
/// the app in front differs from the one polled before it (a title-only
/// change records nothing); it is for that previous app, which has a name,
/// with the last title polled for it, and a positive number of seconds.
pub proof fn lemma_focus_records(start: FocusView, polls: Seq<FocusPoll>)
    ensures
        focus_records(start, polls).len() == polls.len(),
        forall|i: int|
            0 <= i < polls.len() ==> {
                let prev = if i == 0 {
                    start
                } else {
                    (polls[i - 1].0, polls[i - 1].1)
                };
                &&& (#[trigger] focus_records(start, polls)[i]) matches Some(f) ==> {
                    &&& polls[i].0 != prev.0
                    &&& f.0 == prev.0 && f.0.len() > 0
                    &&& f.1 == prev.1
                    &&& f.2 == polls[i].2 && f.2 > 0
                }
                &&& polls[i].0 == prev.0 ==> focus_records(start, polls)[i] is None
            },
{
    assert forall|i: int| 0 <= i < polls.len() implies focus_after(start, polls.take(i)) == (if i == 0 {
        start
    } else {
        (polls[i - 1].0, polls[i - 1].1)
    }) by {
        if i > 0 {
            assert(polls.take(i).last() == polls[i - 1]);
        }
    }
}

impl FocusTracker {
    /// The tracker's state as plain values.
    pub open spec fn view_state(&self) -> FocusView {
        (self.last_app@, self.last_title@)
    }

    /// Starts tracking with the app and title in front.
    pub fn new(app: String, title: String) -> (r: Self)
        ensures
            r.last_app@ == app@,
            r.last_title@ == title@,
    {
        FocusTracker { last_app: app, last_title: title }
    }

    /// Observes the app and title in front, `elapsed_secs` after the current
    /// app came to front. Only an app change counts: then the time spent in
    /// the app that was left is recorded if it is positive and the app has a
    /// name, and tracking moves on to the new app; otherwise only the title
    /// is updated.
    pub fn observe(&mut self, current_app: String, current_title: String, elapsed_secs: i64) -> (r:
        FocusChange)
        ensures
            r.switched == (current_app@ != old(self).last_app@),
            final(self).last_app@ == current_app@,
            final(self).last_title@ == current_title@,
            (r.switched && elapsed_secs > 0 && old(self).last_app@.len() > 0) ==> (r.finished matches Some(
                f) && f.0@ == old(self).last_app@ && f.1@ == old(self).last_title@ && f.2 == elapsed_secs),
            !(r.switched && elapsed_secs > 0 && old(self).last_app@.len() > 0) ==> r.finished is None,
            match r.finished {
                Some(f) => Some((f.0@, f.1@, f.2)),
                None => None,
            } == focus_record(old(self).view_state(), (current_app@, current_title@, elapsed_secs)),
            final(self).view_state() == focus_after(
                old(self).view_state(),
                seq![(current_app@, current_title@, elapsed_secs)],
            ),
    {
        let a = chars_of(current_app.as_str());
        let b = chars_of(self.last_app.as_str());
        if !chars_eq(&a, &b) {
            let finished = if elapsed_secs > 0 && self.last_app.as_str().unicode_len() > 0 {
                Some((self.last_app.clone(), self.last_title.clone(), elapsed_secs))
            } else {
                None
            };
            self.last_app = current_app;
            self.last_title = current_title;
            FocusChange { switched: true, finished }
        } else {
            self.last_title = current_title;
            FocusChange { switched: false, finished: None }
        }
    }
}

/// Typed text is written out once a second has passed since the last write
/// and there is something to write.
pub fn should_flush_keystrokes(millis_since_flush: u64, buffer_empty: bool) -> (r: bool)
    ensures
        r == (millis_since_flush >= 1000 && !buffer_empty),
{
    millis_since_flush >= 1000 && !buffer_empty
}

} // verus!
