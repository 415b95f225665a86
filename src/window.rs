use vstd::prelude::*;
use vstd::string::*;

use crate::geometry::SerializableRect;
use crate::text::decimal_of;

verus! {

/// A visible top-level window as offered for an interactive move.
#[derive(Clone, Debug)]
pub struct ProcessEntry {
    pub hwnd: isize,
    pub pid: u32,
    pub exe_path: Option<String>,
    pub label: String,
}

/// A located window and what is known of it when it was found.
#[derive(Clone, Copy, Debug, PartialEq, Eq, Structural)]
pub struct WindowFound {
    pub hwnd: isize,
    pub width: i64,
    pub height: i64,
    pub elapsed_ms: u64,
}

/// What one pass over the top-level windows saw of a window.
#[derive(Clone, Debug)]
pub struct TopLevelWindow {
    pub hwnd: isize,
    /// Owning process id; 0 when it could not be read.
    pub pid: u32,
    pub visible: bool,
    /// Flagged as an auxiliary (tool) window.
    pub tool_window: bool,
    /// Length of the window title; 0 for an untitled window.
    pub title_len: i32,
    /// The window title, when it was read.
    pub title: String,
    /// Outer rectangle, when it could be read.
    pub rect: Option<SerializableRect>,
    /// Full image path of the owning process, when it could be read.
    pub exe_path: Option<String>,
}

/// A window owned by the wanted executable, with its score.
#[derive(Clone, Copy, Debug, PartialEq, Eq, Structural)]
pub struct WindowCandidate {
    pub hwnd: isize,
    pub score: i32,
    pub width: i64,
    pub height: i64,
}

/// Smallest width of a window that can be the real application window.
pub const MIN_WINDOW_WIDTH: i64 = 480;

/// Smallest height of a window that can be the real application window.
pub const MIN_WINDOW_HEIGHT: i64 = 270;

/// Pixels of area per point of size bonus.
pub const AREA_PER_POINT: u64 = 10_000;

/// Largest size bonus.
pub const MAX_AREA_BONUS: u64 = 200;

/// Penalty for an auxiliary (tool) window.
pub const TOOL_WINDOW_PENALTY: i32 = 50;

/// Penalty for a window below the minimum size (a splash or loading window).
pub const SMALL_WINDOW_PENALTY: i32 = 100;

/// Bonus for a window with a title.
pub const TITLE_BONUS: i32 = 20;

/// The lower-case form of `s`, as std's `str::to_lowercase` computes it.
pub uninterp spec fn lower_of(s: Seq<char>) -> Seq<char>;

/// Relies on `str::to_lowercase`: the result depends on the characters alone.
#[verifier::external_body]
pub(crate) fn lowercase(s: &str) -> (r: String)
    ensures
        r@ == lower_of(s@),
{
    s.to_lowercase()
}

pub open spec fn is_path_separator(c: char) -> bool {
    c == '/' || c == '\\'
}

/// Index of the last path separator, or -1 when there is none.
pub open spec fn last_separator(s: Seq<char>) -> int
    decreases s.len(),
{
    if s.len() == 0 {
        -1
    } else if is_path_separator(s.last()) {
        s.len() - 1
    } else {
        last_separator(s.drop_last())
    }
}

/// The last component of a path: what follows its last `/` or `\`.
pub open spec fn file_name_of(s: Seq<char>) -> Seq<char> {
    s.subrange(last_separator(s) + 1, s.len() as int)
}

/// The file name at the end of `path`, e.g. `game.exe` of `C:\Games\game.exe`.
pub fn exe_file_name(path: &str) -> (r: String)
    ensures
        r@ == file_name_of(path@),
{
    let n = path.unicode_len();
    let mut i: usize = n;
    proof {
        assert(path@.subrange(0, n as int) =~= path@);
    }
    while i > 0 && !(path.get_char(i - 1) == '/' || path.get_char(i - 1) == '\\')
        invariant
            i <= n,
            n == path@.len(),
            last_separator(path@) == last_separator(path@.subrange(0, i as int)),
        decreases i,
    {
        proof {
            assert(path@.subrange(0, i as int).drop_last() =~= path@.subrange(0, i - 1));
        }
        i -= 1;
    }
    proof {
        if i > 0 {
            assert(path@.subrange(0, i as int).last() == path@[i - 1]);
        }
        assert(last_separator(path@.subrange(0, i as int)) == i - 1);
    }
    String::from_str(path.substring_char(i, n))
}

/// The score of a window owned by the wanted executable: tool windows lose
/// heavily, windows below the minimum size lose more, larger windows gain in
/// proportion to their area up to a cap, and titled windows gain.
pub open spec fn spec_score(w: TopLevelWindow) -> int {
    (if w.tool_window { -TOOL_WINDOW_PENALTY } else { 0int })
        + match w.rect {
            None => 0int,
            Some(r) => if r.spec_width() < MIN_WINDOW_WIDTH || r.spec_height() < MIN_WINDOW_HEIGHT {
                -SMALL_WINDOW_PENALTY
            } else {
                vstd::math::min((r.spec_width() * r.spec_height()) / (AREA_PER_POINT as int), MAX_AREA_BONUS as int)
            },
        }
        + (if w.title_len > 0 { TITLE_BONUS as int } else { 0int })
}

pub open spec fn spec_candidate(w: TopLevelWindow) -> WindowCandidate {
    WindowCandidate {
        hwnd: w.hwnd,
        score: spec_score(w) as i32,
        width: match w.rect {
            Some(r) => r.spec_width() as i64,
            None => 0,
        },
        height: match w.rect {
            Some(r) => r.spec_height() as i64,
            None => 0,
        },
    }
}

/// Scores one window for the by-name search.
pub fn score_window(w: &TopLevelWindow) -> (r: WindowCandidate)
    ensures
        r == spec_candidate(*w),
        r.score == spec_score(*w),
{
    let mut score: i32 = 0;
    if w.tool_window {
        score -= TOOL_WINDOW_PENALTY;
    }
    let mut width: i64 = 0;
    let mut height: i64 = 0;
    match w.rect {
        Some(r) => {
            width = r.width();
            height = r.height();
            if width < MIN_WINDOW_WIDTH || height < MIN_WINDOW_HEIGHT {
                score -= SMALL_WINDOW_PENALTY;
            } else {
                assert((width as u64) * (height as u64) <= u64::MAX) by (nonlinear_arith)
                    requires
                        0 < width < 0x1_0000_0000,
                        0 < height < 0x1_0000_0000,
                ;
                let area = (width as u64) * (height as u64);
                let points = area / AREA_PER_POINT;
                let bonus = if points < MAX_AREA_BONUS { points } else { MAX_AREA_BONUS };
                score += bonus as i32;
            }
        },
        None => {},
    }
    if w.title_len > 0 {
        score += TITLE_BONUS;
    }
    WindowCandidate { hwnd: w.hwnd, score, width, height }
}

/// The window belongs to the executable named `target` (already lower-case):
/// visible, with a known owner whose image path ends in that name, compared
/// without regard to case.
pub open spec fn owned_by_exe(w: TopLevelWindow, target: Seq<char>) -> bool {
    &&& w.visible
    &&& w.pid != 0
    &&& w.exe_path is Some
    &&& file_name_of(lower_of(w.exe_path.unwrap()@)) == target
}

/// The scored windows of the executable named `target`, in enumeration order.
pub open spec fn candidates_of(ws: Seq<TopLevelWindow>, target: Seq<char>) -> Seq<WindowCandidate>
    decreases ws.len(),
{
    if ws.len() == 0 {
        Seq::empty()
    } else {
        let prev = candidates_of(ws.drop_last(), target);
        if owned_by_exe(ws.last(), target) {
            prev.push(spec_candidate(ws.last()))
        } else {
            prev
        }
    }
}

/// Index of the highest-scoring candidate, the last one among equals; -1 for
/// no candidates.
pub open spec fn best_index(cs: Seq<WindowCandidate>) -> int
    decreases cs.len(),
{
    if cs.len() == 0 {
        -1
    } else {
        let k = best_index(cs.drop_last());
        if k < 0 || cs.last().score >= cs[k].score {
            cs.len() - 1
        } else {
            k
        }
    }
}

pub open spec fn found_of(c: WindowCandidate) -> WindowFound {
    WindowFound { hwnd: c.hwnd, width: c.width, height: c.height, elapsed_ms: 0 }
}

/// The chosen window: the best candidate, provided its score is positive.
pub open spec fn spec_pick_best(cs: Seq<WindowCandidate>) -> Option<WindowFound> {
    if cs.len() > 0 && cs[best_index(cs)].score > 0 {
        Some(found_of(cs[best_index(cs)]))
    } else {
        None
    }
}

proof fn lemma_best_index(cs: Seq<WindowCandidate>)
    ensures
        cs.len() == 0 <==> best_index(cs) == -1,
        cs.len() > 0 ==> 0 <= best_index(cs) < cs.len(),
        forall|j: int| 0 <= j < cs.len() ==> #[trigger] cs[j].score <= cs[best_index(cs)].score,
        forall|j: int| best_index(cs) < j < cs.len() ==> #[trigger] cs[j].score < cs[best_index(cs)].score,
    decreases cs.len(),
{
    if cs.len() > 0 {
        let prev = cs.drop_last();
        lemma_best_index(prev);
        assert forall|j: int| 0 <= j < cs.len() - 1 implies #[trigger] cs[j] == prev[j] by {}
    }
}

/// Picks the highest-scoring candidate (the last one among equals) and
/// returns it if its score is positive.
pub fn pick_best_candidate(candidates: &Vec<WindowCandidate>) -> (r: Option<WindowFound>)
    ensures
        r == spec_pick_best(candidates@),
        r is Some ==> exists|i: int| 0 <= i < candidates@.len() && candidates@[i].score > 0
            && found_of(candidates@[i]) == r.unwrap()
            && forall|j: int| 0 <= j < candidates@.len() ==> #[trigger] candidates@[j].score <= candidates@[i].score,
        r is None <==> forall|j: int| 0 <= j < candidates@.len() ==> #[trigger] candidates@[j].score <= 0,
{
    proof {
        lemma_best_index(candidates@);
    }
    if candidates.len() == 0 {
        return None;
    }
    let mut best: usize = 0;
    let mut i: usize = 1;
    proof {
        assert(candidates@.subrange(0, 1).drop_last() =~= candidates@.subrange(0, 0));
        assert(best_index(candidates@.subrange(0, 0)) == -1);
        assert(best_index(candidates@.subrange(0, 1)) == 0);
    }
    while i < candidates.len()
        invariant
            1 <= i <= candidates.len(),
            best == best_index(candidates@.subrange(0, i as int)),
        decreases candidates.len() - i,
    {
        proof {
            let sub = candidates@.subrange(0, i + 1);
            assert(sub.drop_last() =~= candidates@.subrange(0, i as int));
            lemma_best_index(candidates@.subrange(0, i as int));
        }
        if candidates[i].score >= candidates[best].score {
            best = i;
        }
        i += 1;
    }
    proof {
        assert(candidates@.subrange(0, candidates@.len() as int) =~= candidates@);
    }
    let c = candidates[best];
    if c.score > 0 {
        Some(WindowFound { hwnd: c.hwnd, width: c.width, height: c.height, elapsed_ms: 0 })
    } else {
        None
    }
}

/// Whether the file name at the end of `lowered_path` (a lower-cased image
/// path) is `target`.
pub fn matches_exe(lowered_path: &str, target: &String) -> (r: bool)
    ensures
        r == (file_name_of(lowered_path@) == target@),
{
    let name = exe_file_name(lowered_path);
    name == *target
}

/// Scores every window of the executable named `target_lowercase`, in
/// enumeration order.
pub fn collect_candidates(target_lowercase: &String, windows: &Vec<TopLevelWindow>) -> (r: Vec<WindowCandidate>)
    ensures
        r@ == candidates_of(windows@, target_lowercase@),
{
    let mut out: Vec<WindowCandidate> = Vec::new();
    let mut i: usize = 0;
    while i < windows.len()
        invariant
            i <= windows.len(),
            out@ == candidates_of(windows@.subrange(0, i as int), target_lowercase@),
        decreases windows.len() - i,
    {
        proof {
            assert(windows@.subrange(0, i + 1).drop_last() =~= windows@.subrange(0, i as int));
        }
        let w = &windows[i];
        if w.visible && w.pid != 0 {
            match &w.exe_path {
                Some(path) => {
                    let lower = lowercase(path.as_str());
                    if matches_exe(lower.as_str(), target_lowercase) {
                        out.push(score_window(w));
                    }
                },
                None => {},
            }
        }
        i += 1;
    }
    proof {
        assert(windows@.subrange(0, windows@.len() as int) =~= windows@);
    }
    out
}

/// The window of the executable named `target_lowercase` that is most likely
/// its real application window, if any scores positively.
pub fn find_best_window_by_process_name(target_lowercase: &String, windows: &Vec<TopLevelWindow>) -> (r: Option<WindowFound>)
    ensures
        r == spec_pick_best(candidates_of(windows@, target_lowercase@)),
{
    let candidates = collect_candidates(target_lowercase, windows);
    pick_best_candidate(&candidates)
}

/// The handle of the window that `find_best_window_by_process_name` picks.
pub fn find_window_by_process_name(target_lowercase: &String, windows: &Vec<TopLevelWindow>) -> (r: Option<isize>)
    ensures
        r == match spec_pick_best(candidates_of(windows@, target_lowercase@)) {
            Some(f) => Some(f.hwnd),
            None => None::<isize>,
        },
{
    match find_best_window_by_process_name(target_lowercase, windows) {
        Some(f) => Some(f.hwnd),
        None => None,
    }
}

/// `i` is the first visible window owned by process `pid`.
pub open spec fn is_first_owned(ws: Seq<TopLevelWindow>, pid: u32, i: int) -> bool {
    &&& 0 <= i < ws.len()
    &&& ws[i].pid == pid && ws[i].visible
    &&& forall|j: int| 0 <= j < i ==> !(#[trigger] ws[j].pid == pid && ws[j].visible)
}

/// The first visible top-level window owned directly by process `pid`.
pub fn find_main_window_by_pid(pid: u32, windows: &Vec<TopLevelWindow>) -> (r: Option<isize>)
    ensures
        match r {
            Some(h) => exists|i: int| is_first_owned(windows@, pid, i) && windows@[i].hwnd == h,
            None => forall|i: int| 0 <= i < windows@.len() ==> !(#[trigger] windows@[i].pid == pid && windows@[i].visible),
        },
{
    let mut i: usize = 0;
    while i < windows.len()
        invariant
            i <= windows.len(),
            forall|j: int| 0 <= j < i ==> !(#[trigger] windows@[j].pid == pid && windows@[j].visible),
        decreases windows.len() - i,
    {
        if windows[i].pid == pid && windows[i].visible {
            proof {
                assert(is_first_owned(windows@, pid, i as int));
            }
            return Some(windows[i].hwnd);
        }
        i += 1;
    }
    None
}

/// What a window search does after one look at the windows.
#[derive(Clone, Copy, Debug, PartialEq, Eq, Structural)]
pub enum SearchOutcome {
    /// The window was found, `elapsed_ms` after the search began.
    Found(WindowFound),
    /// The deadline has passed: the window is reported as not found.
    TimedOut,
    /// Look again after this many milliseconds.
    RetryAfter(u64),
}

/// Decides a polling window search after one look: a window that was found
/// ends it (stamped with the time taken), a passed deadline ends it as not
/// found, and otherwise the next look comes after `interval_ms`.
pub fn search_step(found: Option<WindowFound>, elapsed_ms: u64, timeout_ms: u64, interval_ms: u64) -> (r: SearchOutcome)
    ensures
        r == match found {
            Some(f) => SearchOutcome::Found(WindowFound { elapsed_ms, ..f }),
            None => if elapsed_ms >= timeout_ms {
                SearchOutcome::TimedOut
            } else {
                SearchOutcome::RetryAfter(interval_ms)
            },
        },
{
    match found {
        Some(f) => SearchOutcome::Found(WindowFound { hwnd: f.hwnd, width: f.width, height: f.height, elapsed_ms }),
        None => if elapsed_ms >= timeout_ms {
            SearchOutcome::TimedOut
        } else {
            SearchOutcome::RetryAfter(interval_ms)
        },
    }
}

/// `a` sorts before or together with `b`: character by character, by code
/// point, a prefix first (the order of `str`).
pub open spec fn text_le(a: Seq<char>, b: Seq<char>) -> bool
    decreases a.len(),
{
    if a.len() == 0 {
        true
    } else if b.len() == 0 {
        false
    } else if (a[0] as u32) != (b[0] as u32) {
        (a[0] as u32) < (b[0] as u32)
    } else {
        text_le(a.drop_first(), b.drop_first())
    }
}

proof fn lemma_text_le_total(a: Seq<char>, b: Seq<char>)
    ensures
        text_le(a, b) || text_le(b, a),
    decreases a.len(),
{
    if a.len() > 0 && b.len() > 0 && (a[0] as u32) == (b[0] as u32) {
        lemma_text_le_total(a.drop_first(), b.drop_first());
    }
}

proof fn lemma_text_le_transitive(a: Seq<char>, b: Seq<char>, c: Seq<char>)
    requires
        text_le(a, b),
        text_le(b, c),
    ensures
        text_le(a, c),
    decreases a.len(),
{
    if a.len() > 0 && b.len() > 0 && c.len() > 0 && (a[0] as u32) == (b[0] as u32) && (b[0] as u32) == (c[0] as u32) {
        lemma_text_le_transitive(a.drop_first(), b.drop_first(), c.drop_first());
    }
}

/// Whether `a` sorts before or together with `b`.
pub fn label_le(a: &str, b: &str) -> (r: bool)
    ensures
        r == text_le(a@, b@),
{
    let na = a.unicode_len();
    let nb = b.unicode_len();
    let mut i: usize = 0;
    proof {
        assert(a@.subrange(0, na as int) =~= a@);
        assert(b@.subrange(0, nb as int) =~= b@);
    }
    while i < na && i < nb && a.get_char(i) as u32 == b.get_char(i) as u32
        invariant
            i <= na && i <= nb,
            na == a@.len() && nb == b@.len(),
            text_le(a@, b@) == text_le(a@.subrange(i as int, na as int), b@.subrange(i as int, nb as int)),
        decreases na - i,
    {
        proof {
            assert(a@.subrange(i as int, na as int).drop_first() =~= a@.subrange(i + 1, na as int));
            assert(b@.subrange(i as int, nb as int).drop_first() =~= b@.subrange(i + 1, nb as int));
        }
        i += 1;
    }
    if i == na {
        true
    } else if i == nb {
        false
    } else {
        (a.get_char(i) as u32) < (b.get_char(i) as u32)
    }
}

pub open spec fn sorted_by_label(es: Seq<ProcessEntry>) -> bool {
    forall|i: int, j: int| 0 <= i < j < es.len() ==> text_le(#[trigger] es[i].label@, #[trigger] es[j].label@)
}

/// The entry under which a window is offered for a move: the file name of
/// its executable (or `PID <pid>` when that could not be read), a dash, and
/// its title.
pub open spec fn spec_label(w: TopLevelWindow) -> Seq<char> {
    let exe = match w.exe_path {
        Some(p) => file_name_of(p@),
        None => "PID "@ + decimal_of(w.pid as nat),
    };
    exe + " \u{2014} "@ + w.title@
}

/// The window is offered for a move: visible, not a tool window, titled.
pub open spec fn offered(w: TopLevelWindow) -> bool {
    w.visible && !w.tool_window && w.title_len > 0
}

/// The executable path an entry shows: the window's, when not empty.
pub open spec fn shown_path(w: TopLevelWindow) -> Option<String> {
    match w.exe_path {
        Some(p) => if p@.len() > 0 { Some(p) } else { None },
        None => None,
    }
}

/// The entries of the offered windows, before sorting.
pub open spec fn offered_windows(ws: Seq<TopLevelWindow>) -> Seq<TopLevelWindow>
    decreases ws.len(),
{
    if ws.len() == 0 {
        Seq::empty()
    } else {
        let prev = offered_windows(ws.drop_last());
        if offered(ws.last()) {
            prev.push(ws.last())
        } else {
            prev
        }
    }
}

/// The entry is the one made for `w`.
pub open spec fn entry_of(e: ProcessEntry, w: TopLevelWindow) -> bool {
    &&& e.hwnd == w.hwnd
    &&& e.pid == w.pid
    &&& e.label@ == spec_label(w)
    &&& e.exe_path == shown_path(w)
}

fn make_entry(w: &TopLevelWindow) -> (r: ProcessEntry)
    ensures
        entry_of(r, *w),
{
    let mut label = match &w.exe_path {
        Some(p) => exe_file_name(p.as_str()),
        None => {
            let digits = crate::text::decimal_string(w.pid);
            crate::text::concat2("PID ", digits.as_str())
        },
    };
    label.append(" \u{2014} ");
    label.append(w.title.as_str());
    let exe_path = match &w.exe_path {
        Some(p) => if p.as_str().unicode_len() > 0 { Some(p.clone()) } else { None },
        None => None,
    };
    ProcessEntry { hwnd: w.hwnd, pid: w.pid, exe_path, label }
}

/// Inserts `e` into `es`, kept sorted by label, after every entry whose
/// label sorts together with its own.
fn insert_sorted(es: &mut Vec<ProcessEntry>, e: ProcessEntry)
    requires
        sorted_by_label(old(es)@),
    ensures
        sorted_by_label(final(es)@),
        final(es)@.to_multiset() == old(es)@.to_multiset().insert(e),
{
    let mut p: usize = 0;
    while p < es.len() && label_le(es[p].label.as_str(), e.label.as_str())
        invariant
            p <= es@.len(),
            es@ == old(es)@,
            forall|k: int| 0 <= k < p ==> text_le(#[trigger] es@[k].label@, e.label@),
        decreases es@.len() - p,
    {
        p += 1;
    }
    let ghost before = es@;
    proof {
        if p < es@.len() {
            assert(!text_le(es@[p as int].label@, e.label@));
            lemma_text_le_total(es@[p as int].label@, e.label@);
            assert forall|j: int| p <= j < before.len() implies text_le(e.label@, #[trigger] before[j].label@) by {
                if j > p {
                    lemma_text_le_transitive(e.label@, before[p as int].label@, before[j].label@);
                }
            }
        }
        vstd::seq_lib::to_multiset_insert(before, p as int, e);
    }
    es.insert(p, e);
    proof {
        let after = es@;
        assert(after == before.insert(p as int, e));
        assert forall|i: int, j: int| 0 <= i < j < after.len() implies text_le(#[trigger] after[i].label@, #[trigger] after[j].label@) by {
            if j < p {
                assert(after[i] == before[i] && after[j] == before[j]);
            } else if j == p {
                assert(after[i] == before[i]);
            } else if i < p {
                assert(after[i] == before[i] && after[j] == before[j - 1]);
                if j - 1 >= p {
                    lemma_text_le_transitive(before[i].label@, e.label@, before[j - 1].label@);
                }
            } else if i == p {
                assert(after[j] == before[j - 1]);
            } else {
                assert(after[i] == before[i - 1] && after[j] == before[j - 1]);
            }
        }
    }
}

/// Every entry is made for one of `ws`, and every window of `ws` has an entry.
pub open spec fn entries_match(es: Seq<ProcessEntry>, ws: Seq<TopLevelWindow>) -> bool {
    &&& forall|k: int| 0 <= k < es.len() ==> made_for_one_of(#[trigger] es[k], ws)
    &&& forall|j: int| 0 <= j < ws.len() ==> has_entry_for(es, #[trigger] ws[j])
}

pub open spec fn made_for_one_of(e: ProcessEntry, ws: Seq<TopLevelWindow>) -> bool {
    exists|j: int| 0 <= j < ws.len() && entry_of(e, #[trigger] ws[j])
}

pub open spec fn has_entry_for(es: Seq<ProcessEntry>, w: TopLevelWindow) -> bool {
    exists|k: int| 0 <= k < es.len() && entry_of(#[trigger] es[k], w)
}

/// The windows offered for an interactive move (visible, not tool windows,
/// titled), one entry each, sorted by label.
pub fn list_visible_windows(windows: &Vec<TopLevelWindow>) -> (r: Vec<ProcessEntry>)
    ensures
        sorted_by_label(r@),
        r@.len() == offered_windows(windows@).len(),
        entries_match(r@, offered_windows(windows@)),
{
    let mut out: Vec<ProcessEntry> = Vec::new();
    let mut i: usize = 0;
    while i < windows.len()
        invariant
            i <= windows.len(),
            sorted_by_label(out@),
            out@.len() == offered_windows(windows@.subrange(0, i as int)).len(),
            entries_match(out@, offered_windows(windows@.subrange(0, i as int))),
        decreases windows.len() - i,
    {
        let ghost offs = offered_windows(windows@.subrange(0, i as int));
        proof {
            assert(windows@.subrange(0, i + 1).drop_last() =~= windows@.subrange(0, i as int));
            assert(windows@.subrange(0, i + 1).last() == windows@[i as int]);
        }
        let w = &windows[i];
        if w.visible && !w.tool_window && w.title_len > 0 {
            let e = make_entry(w);
            let ghost before = out@;
            insert_sorted(&mut out, e);
            proof {
                let offs2 = offs.push(*w);
                assert(offered_windows(windows@.subrange(0, i + 1)) == offs2);
                assert forall|k: int| 0 <= k < out@.len() implies made_for_one_of(#[trigger] out@[k], offs2) by {
                    let x = out@[k];
                    vstd::seq_lib::to_multiset_contains(out@, x);
                    assert(out@.contains(x));
                    if x == e {
                        assert(entry_of(x, offs2[offs.len() as int]));
                    } else {
                        assert(before.to_multiset().count(x) > 0);
                        vstd::seq_lib::to_multiset_contains(before, x);
                        let kk = choose|kk: int| 0 <= kk < before.len() && before[kk] == x;
                        assert(made_for_one_of(before[kk], offs));
                        let j = choose|j: int| 0 <= j < offs.len() && entry_of(before[kk], #[trigger] offs[j]);
                        assert(offs2[j] == offs[j]);
                    }
                }
                assert forall|j: int| 0 <= j < offs2.len() implies has_entry_for(out@, #[trigger] offs2[j]) by {
                    let x = if j < offs.len() {
                        assert(offs2[j] == offs[j]);
                        assert(has_entry_for(before, offs[j]));
                        let k0 = choose|k: int| 0 <= k < before.len() && entry_of(#[trigger] before[k], offs[j]);
                        before[k0]
                    } else {
                        e
                    };
                    if j < offs.len() {
                        vstd::seq_lib::to_multiset_contains(before, x);
                        assert(before.contains(x));
                        assert(out@.to_multiset().count(x) > 0);
                    } else {
                        assert(out@.to_multiset().count(x) > 0);
                    }
                    vstd::seq_lib::to_multiset_contains(out@, x);
                    let k = choose|k: int| 0 <= k < out@.len() && out@[k] == x;
                    assert(entry_of(out@[k], offs2[j]));
                }
                assert(out@.len() == before.len() + 1) by {
                    vstd::seq_lib::to_multiset_len(out@);
                    vstd::seq_lib::to_multiset_len(before);
                }
                assert(entries_match(out@, offs2));
            }
        } else {
            proof {
                assert(offered_windows(windows@.subrange(0, i + 1)) == offs);
                assert(entries_match(out@, offs));
            }
        }
        i += 1;
    }
    proof {
        assert(windows@.subrange(0, windows@.len() as int) =~= windows@);
    }
    out
}

} // verus!
