use vstd::prelude::*;
use vstd::string::StringExecFns;
use crate::text::{chars_of, lemma_push_fresh, push_char, views};
use crate::capture::{Annotation, CaptureSession};
use crate::hotkeys::{held_within_hotkey, recording_bounded, HotkeyState, HotkeyView};

verus! {

/// The image formats that the save dialog offers besides the current one.
pub open spec fn standard_formats() -> Seq<Seq<char>> {
    seq!["png"@, "jpg"@, "jpeg"@, "bmp"@, "tiff"@, "gif"@]
}

/// `s` without the elements equal to `x`, in order.
pub open spec fn without(s: Seq<Seq<char>>, x: Seq<char>) -> Seq<Seq<char>>
    decreases s.len(),
{
    if s.len() == 0 {
        Seq::empty()
    } else if s.last() == x {
        without(s.drop_last(), x)
    } else {
        without(s.drop_last(), x).push(s.last())
    }
}

/// The choices of the output-format list: the current format first, then
/// each standard format that differs from it.
pub open spec fn format_choices(current: Seq<char>) -> Seq<Seq<char>> {
    seq![current] + without(standard_formats(), current)
}

/// The formats offered by the output-format list, the current one first.
pub fn output_format_choices(current: &String) -> (r: Vec<String>)
    ensures
        views(r@) == format_choices(current@),
{
    let standard: Vec<String> = vec![
        "png".to_owned(),
        "jpg".to_owned(),
        "jpeg".to_owned(),
        "bmp".to_owned(),
        "tiff".to_owned(),
        "gif".to_owned(),
    ];
    assert(views(standard@) =~= standard_formats());
    let mut r: Vec<String> = Vec::new();
    r.push(current.clone());
    let n = standard.len();
    for i in 0..n
        invariant
            n == standard@.len(),
            views(standard@) == standard_formats(),
            views(r@) =~= seq![current@] + without(standard_formats().take(i as int), current@),
    {
        assert(standard_formats().take(i + 1).drop_last() == standard_formats().take(i as int));
        assert(standard_formats().take(i + 1).last() == standard@[i as int]@);
        if standard[i] != *current {
            let ghost before = r@;
            r.push(standard[i].clone());
            assert(views(r@) =~= views(before).push(standard@[i as int]@));
        }
    }
    assert(standard_formats().take(n as int) == standard_formats());
    r
}

proof fn lemma_without_props(s: Seq<Seq<char>>, x: Seq<char>)
    requires
        s.no_duplicates(),
    ensures
        without(s, x).no_duplicates(),
        !without(s, x).contains(x),
        forall|y: Seq<char>| #[trigger] without(s, x).contains(y) <==> (s.contains(y) && y != x),
    decreases s.len(),
{
    if s.len() > 0 {
        let t = s.drop_last();
        assert(t.no_duplicates());
        lemma_without_props(t, x);
        assert forall|y: Seq<char>| s.contains(y) <==> (t.contains(y) || y == s.last()) by {
            if s.contains(y) {
                let i = choose|i: int| 0 <= i < s.len() && s[i] == y;
                if i < s.len() - 1 {
                    assert(t[i] == y);
                }
            }
            if t.contains(y) {
                let i = choose|i: int| 0 <= i < t.len() && t[i] == y;
                assert(s[i] == y);
            }
        }
        assert(!t.contains(s.last())) by {
            if t.contains(s.last()) {
                let i = choose|i: int| 0 <= i < t.len() && t[i] == s.last();
                assert(s[i] == s[s.len() - 1]);
            }
        }
        if s.last() != x {
            let w = without(t, x);
            let u = w.push(s.last());
            lemma_push_fresh(w, s.last());
            assert forall|y: Seq<char>| #[trigger] u.contains(y) <==> (w.contains(y) || y == s.last()) by {
                if u.contains(y) {
                    let i = choose|i: int| 0 <= i < u.len() && u[i] == y;
                    if i < u.len() - 1 {
                        assert(w[i] == y);
                    }
                }
                if w.contains(y) {
                    let i = choose|i: int| 0 <= i < w.len() && w[i] == y;
                    assert(u[i] == y);
                }
                if y == s.last() {
                    assert(u[u.len() - 1] == y);
                }
            }
        }
    }
}

/// The output-format list starts with the current format, offers every
/// standard format, and offers no format twice.
pub proof fn law_format_choices_distinct_and_complete(current: Seq<char>)
    ensures
        format_choices(current)[0] == current,
        format_choices(current).no_duplicates(),
        forall|i: int| 0 <= i < standard_formats().len() ==> format_choices(current).contains(
            #[trigger] standard_formats()[i],
        ),
{
    reveal_strlit("png");
    reveal_strlit("jpg");
    reveal_strlit("jpeg");
    reveal_strlit("bmp");
    reveal_strlit("tiff");
    reveal_strlit("gif");
    let s = standard_formats();
    assert(s.no_duplicates()) by {
        assert forall|i: int, j: int| 0 <= i < s.len() && 0 <= j < s.len() && i != j implies s[i] != s[j] by {
            assert(s[i].len() != s[j].len() || s[i][0] != s[j][0] || s[i][1] != s[j][1]);
        }
    }
    lemma_without_props(s, current);
    let w = without(s, current);
    let c = format_choices(current);
    assert(c =~= seq![current] + w);
    assert forall|i: int, j: int| 0 <= i < c.len() && 0 <= j < c.len() && i != j implies c[i] != c[j] by {
        if i == 0 {
            assert(w.contains(c[j]));
        } else if j == 0 {
            assert(w.contains(c[i]));
        } else {
            assert(c[i] == w[i - 1] && c[j] == w[j - 1]);
        }
    }
    assert forall|i: int| 0 <= i < s.len() implies c.contains(#[trigger] s[i]) by {
        if s[i] == current {
            assert(c[0] == current);
        } else {
            assert(s.contains(s[i]));
            assert(w.contains(s[i]));
            let k = choose|k: int| 0 <= k < w.len() && w[k] == s[i];
            assert(c[k + 1] == s[i]);
        }
    }
}

/// The number of bytes that UTF-8 uses for `c`.
pub open spec fn utf8_width(c: char) -> nat {
    if (c as u32) < 0x80 {
        1
    } else if (c as u32) < 0x800 {
        2
    } else if (c as u32) < 0x10000 {
        3
    } else {
        4
    }
}

/// The number of bytes of the UTF-8 encoding of `s`, which `str::len` gives.
pub open spec fn utf8_len(s: Seq<char>) -> nat
    decreases s.len(),
{
    if s.len() == 0 {
        0
    } else {
        utf8_len(s.drop_last()) + utf8_width(s.last())
    }
}

/// The longest path shown whole in the settings window, in bytes.
pub open spec fn path_shown_bytes() -> nat {
    40
}

/// The prefix of the settings window's path line.
pub open spec fn path_prefix() -> Seq<char> {
    "Current Path: "@
}

proof fn lemma_utf8_len_take_step(s: Seq<char>, k: int)
    requires
        0 <= k < s.len(),
    ensures
        utf8_len(s.take(k + 1)) == utf8_len(s.take(k)) + utf8_width(s[k]),
{
    assert(s.take(k + 1).drop_last() == s.take(k));
}

proof fn lemma_utf8_len_strictly_increasing(s: Seq<char>, j: int, k: int)
    requires
        0 <= j < k <= s.len(),
    ensures
        utf8_len(s.take(j)) < utf8_len(s.take(k)),
    decreases k - j,
{
    lemma_utf8_len_take_step(s, k - 1);
    if j < k - 1 {
        lemma_utf8_len_strictly_increasing(s, j, k - 1);
    }
}

proof fn lemma_utf8_len_first(s: Seq<char>)
    requires
        s.len() > 0,
    ensures
        utf8_len(s) == utf8_width(s[0]) + utf8_len(s.drop_first()),
    decreases s.len(),
{
    if s.len() > 1 {
        lemma_utf8_len_first(s.drop_last());
        assert(s.drop_last().drop_first() == s.drop_first().drop_last());
        assert(s.drop_last()[0] == s[0]);
        assert(s.drop_first().last() == s.last());
        assert(utf8_len(s.drop_first()) == utf8_len(s.drop_first().drop_last()) + utf8_width(s.drop_first().last()));
    } else {
        assert(s.drop_first().len() == 0);
        assert(s.drop_last().len() == 0);
        assert(s.last() == s[0]);
        assert(utf8_len(s.drop_first()) == 0);
        assert(utf8_len(s.drop_last()) == 0);
    }
}

/// The byte count used by the path line is that of the string's UTF-8
/// encoding, the count that `str::len` gives.
pub proof fn law_utf8_len_is_encoded_length(s: Seq<char>)
    ensures
        utf8_len(s) == vstd::utf8::encode_utf8(s).len(),
    decreases s.len(),
{
    if s.len() > 0 {
        lemma_utf8_len_first(s);
        law_utf8_len_is_encoded_length(s.drop_first());
        vstd::utf8::char_is_scalar(s[0]);
        assert(vstd::utf8::encode_scalar(s[0] as u32).len() == utf8_width(s[0]));
    }
}

fn char_width(c: char) -> (w: u64)
    ensures
        w == utf8_width(c),
{
    let u = c as u32;
    if u < 0x80 {
        1
    } else if u < 0x800 {
        2
    } else if u < 0x10000 {
        3
    } else {
        4
    }
}

/// The path line of the settings window: "Current Path: " and the path, cut
/// after its first 40 bytes and followed by "..." when it is longer. The
/// cut must fall between two characters.
pub fn path_label(path: &str) -> (r: String)
    requires
        utf8_len(path@) > path_shown_bytes() ==> exists|k: int|
            0 <= k <= path@.len() && utf8_len(#[trigger] path@.take(k)) == path_shown_bytes(),
    ensures
        utf8_len(path@) <= path_shown_bytes() ==> r@ == path_prefix() + path@,
        forall|k: int|
            0 <= k <= path@.len() && utf8_len(path@) > path_shown_bytes() && utf8_len(
                #[trigger] path@.take(k),
            ) == path_shown_bytes() ==> r@ == path_prefix() + path@.take(k) + "..."@,
{
    let v = chars_of(path);
    let n = v.len();
    let mut total: u64 = 0;
    let mut i: usize = 0;
    while i < n && total <= 40
        invariant
            v@ == path@,
            n == v@.len(),
            i <= n,
            total == utf8_len(path@.take(i as int)),
            total <= 44,
        decreases n - i,
    {
        proof { lemma_utf8_len_take_step(path@, i as int); }
        total = total + char_width(v[i]);
        i = i + 1;
    }
    let mut r = "Current Path: ".to_owned();
    if total <= 40 {
        assert(path@.take(n as int) == path@);
        r.append(path);
        proof {
            if utf8_len(path@) > 40 {
                assert(false);
            }
        }
        return r;
    }
    proof {
        assert(path@.take(n as int) == path@);
        if i < n {
            lemma_utf8_len_strictly_increasing(path@, i as int, n as int);
        }
        assert(utf8_len(path@) > 40);
    }
    let ghost k0 = choose|k: int| 0 <= k <= path@.len() && utf8_len(path@.take(k)) == 40;
    let mut cut: u64 = 0;
    let mut j: usize = 0;
    while cut < 40
        invariant
            v@ == path@,
            n == v@.len(),
            0 <= k0 <= n,
            utf8_len(path@.take(k0)) == 40,
            j <= k0,
            cut == utf8_len(path@.take(j as int)),
            r@ == path_prefix() + path@.take(j as int),
        decreases k0 - j,
    {
        proof {
            if j == k0 {
                assert(false);
            }
            lemma_utf8_len_take_step(path@, j as int);
        }
        let c = v[j];
        push_char(&mut r, c);
        assert(path@.take(j + 1) == path@.take(j as int).push(c));
        cut = cut + char_width(c);
        j = j + 1;
        proof {
            if j < k0 {
                lemma_utf8_len_strictly_increasing(path@, j as int, k0);
            } else if j > k0 {
                lemma_utf8_len_strictly_increasing(path@, k0, j as int);
            }
        }
    }
    proof {
        if j < k0 {
            lemma_utf8_len_strictly_increasing(path@, j as int, k0);
        }
        assert forall|k: int| 0 <= k <= path@.len() && utf8_len(#[trigger] path@.take(k)) == 40 implies k == j by {
            if k < j {
                lemma_utf8_len_strictly_increasing(path@, k, j as int);
            } else if k > j {
                lemma_utf8_len_strictly_increasing(path@, j as int, k);
            }
        }
    }
    r.append("...");
    r
}

/// The application delegate: when a window closes it has the settings saved.
pub struct Delegate;

/// The message that the hotkey editor keeps in the saved settings.
pub open spec fn saved_error_message() -> Seq<char> {
    "Invalid Input: Wrong Hotkey."@
}

/// The hotkey state as the settings file keeps it.
pub open spec fn saved_hotkeys(s: HotkeyView) -> HotkeyView {
    HotkeyView {
        hotkey: s.hotkey,
        hotkey_new: Seq::empty(),
        hotkey_pressed: Seq::empty(),
        set_hot_key: false,
        trigger_ui: false,
        error_shown: false,
        error_message: saved_error_message(),
    }
}

/// Saving the settings twice keeps what saving once kept, and a saved state
/// holds the same hotkey, with no key held and no recording in progress.
pub proof fn law_saved_settings_are_stable(s: HotkeyView)
    ensures
        saved_hotkeys(saved_hotkeys(s)) == saved_hotkeys(s),
        saved_hotkeys(s).hotkey == s.hotkey,
        held_within_hotkey(saved_hotkeys(s)),
        recording_bounded(saved_hotkeys(s)),
{
}

impl Delegate {
    /// Whether a command asks for the settings to be saved: only closing a
    /// window does. The command itself is never consumed.
    pub fn command(&mut self, closes_window: bool) -> (save_settings: bool)
        ensures
            save_settings == closes_window,
    {
        closes_window
    }

    /// The hotkey part of the settings that are written when a window
    /// closes: the hotkey stays; the recording, the held keys and the
    /// editor mode are cleared, and the error line is hidden.
    pub fn hotkeys_to_save(data: &HotkeyState) -> (r: HotkeyState)
        ensures
            r@ == saved_hotkeys(data@),
    {
        let r = HotkeyState {
            hotkey: data.hotkey.clone(),
            hotkey_new: Vec::new(),
            hotkey_pressed: Vec::new(),
            set_hot_key: false,
            trigger_ui: false,
            error_shown: false,
            error_message: "Invalid Input: Wrong Hotkey.".to_owned(),
        };
        assert(r@.hotkey_new =~= Seq::<Seq<char>>::empty());
        assert(r@.hotkey_pressed =~= Seq::<Seq<char>>::empty());
        assert(r@.hotkey =~= data@.hotkey);
        r
    }

    /// The capture part of the settings that are written when a window
    /// closes: the counter stays; the images, the points, the tool and the
    /// text are cleared, and the next capture starts from scratch.
    pub fn capture_to_save<C>(data: &CaptureSession<C>) -> (r: CaptureSession<C>)
        ensures
            r.screenshot_number == data.screenshot_number,
            r.image_data_old@.len() == 0,
            r.image_data_new@.len() == 0,
            !r.press,
            r.first_screen,
            r.positions@.len() == 0,
            r.annotation == Annotation::Crop,
            r.text_annotation@.len() == 0,
    {
        CaptureSession::new(data.screenshot_number)
    }
}

} // verus!
