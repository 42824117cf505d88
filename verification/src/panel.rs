//! The decisions of the overlay window that do not depend on drawing: the
//! settings panel and key rebinding, the colours of the readouts, and the
//! choices offered in the keyboard and font selectors.

use crate::config::{refreshed, Config};
use crate::text::{str_eq, to_owned_string};
use vstd::prelude::*;
use vstd::string::{StrSliceExecFns, StringExecFns};

verus! {

/// The binding that the settings panel is waiting to rebind.
#[derive(Clone, Copy, Debug, PartialEq, Eq, Structural)]
pub enum BindingAction {
    Reset,
    Tap,
    CycleMultipliers,
    BloodMoon,
}

/// `next` is `c` with the binding name of `action` set to `name` and the key
/// codes read anew.
pub open spec fn rebound(c: Config, action: BindingAction, name: String, next: Config) -> bool {
    refreshed(
        match action {
            BindingAction::Reset => Config { reset_str: name, ..c },
            BindingAction::Tap => Config { tap_str: name, ..c },
            BindingAction::CycleMultipliers => Config { cycle_multiplier_str: name, ..c },
            BindingAction::BloodMoon => Config { blood_moon_str: name, ..c },
        },
        next,
    )
}

/// Whether the settings panel is open and which binding, if any, waits for a
/// key.
pub struct Panel {
    pub binding_state: Option<BindingAction>,
    pub show_settings: bool,
}

impl Panel {
    /// Closed, waiting for nothing.
    pub fn new() -> (p: Panel)
        ensures
            p.binding_state is None,
            !p.show_settings,
    {
        Panel { binding_state: None, show_settings: false }
    }

    /// The settings button: opens or closes the panel; closing it stops any
    /// rebinding. Returns whether the panel is now open.
    pub fn toggle_settings(&mut self) -> (open: bool)
        ensures
            open == final(self).show_settings,
            final(self).show_settings == !old(self).show_settings,
            final(self).binding_state == (if final(self).show_settings {
                old(self).binding_state
            } else {
                None
            }),
    {
        self.show_settings = !self.show_settings;
        if !self.show_settings {
            self.binding_state = None;
        }
        self.show_settings
    }

    /// The close button of the panel.
    pub fn close_settings(&mut self)
        ensures
            !final(self).show_settings,
            final(self).binding_state is None,
    {
        self.show_settings = false;
        self.binding_state = None;
    }

    /// A binding's button: the panel now waits for a key for that binding.
    pub fn begin_binding(&mut self, action: BindingAction)
        ensures
            final(self).binding_state == Some(action),
            final(self).show_settings == old(self).show_settings,
    {
        self.binding_state = Some(action);
    }

    /// A key press while the panel is focused. When a binding waits, its name
    /// becomes `key_name`, the key codes are read anew and the wait ends; the
    /// result says whether the configuration changed (and is to be saved).
    pub fn capture_key(&mut self, config: &mut Config, key_name: String) -> (changed: bool)
        ensures
            changed == old(self).binding_state is Some,
            final(self).binding_state is None,
            final(self).show_settings == old(self).show_settings,
            match old(self).binding_state {
                Some(action) => rebound(*old(config), action, key_name, *final(config)),
                None => *final(config) == *old(config),
            },
    {
        match self.binding_state {
            Some(action) => {
                match action {
                    BindingAction::Reset => config.reset_str = key_name,
                    BindingAction::Tap => config.tap_str = key_name,
                    BindingAction::CycleMultipliers => config.cycle_multiplier_str = key_name,
                    BindingAction::BloodMoon => config.blood_moon_str = key_name,
                }
                config.refresh_key_codes();
                self.binding_state = None;
                true
            },
            None => false,
        }
    }

    /// The label of a binding's button: a prompt while it waits for a key,
    /// otherwise the bound key's name in brackets.
    pub fn binding_button_text(&self, action: BindingAction, current_key: &str) -> (s: String)
        ensures
            s@ == (if self.binding_state == Some(action) {
                "Press any key..."@
            } else {
                "[ "@ + current_key@ + " ]"@
            }),
    {
        if self.binding_state == Some(action) {
            to_owned_string("Press any key...")
        } else {
            let mut s = to_owned_string("[ ");
            s.append(current_key);
            s.append(" ]");
            s
        }
    }
}

/// The colour of the running time: red from 60 up to 90 seconds, cyan from 90
/// up to 180 seconds, green otherwise.
pub fn timer_color(seconds: u64) -> (rgb: u32)
    ensures
        rgb == (if 60 <= seconds < 90 {
            0xff0000u32
        } else if 90 <= seconds < 180 {
            0x00ffffu32
        } else {
            0x00ff00u32
        }),
{
    if seconds >= 60 && seconds < 90 {
        0xff0000
    } else if seconds >= 90 && seconds < 180 {
        0x00ffff
    } else {
        0x00ff00
    }
}

/// The colour of the blood-moon icon: red when the mode is on, grey otherwise.
pub fn blood_moon_color(on: bool) -> (rgb: u32)
    ensures
        rgb == (if on { 0xff0000u32 } else { 0x666666u32 }),
{
    if on {
        0xff0000
    } else {
        0x666666
    }
}

/// The position of the last `c` in `s`.
pub open spec fn last_index_of(s: Seq<char>, c: char) -> Option<int>
    decreases s.len(),
{
    if s.len() == 0 {
        None
    } else if s.last() == c {
        Some(s.len() - 1)
    } else {
        last_index_of(s.drop_last(), c)
    }
}

proof fn lemma_last_index_bounds(s: Seq<char>, c: char)
    ensures
        last_index_of(s, c) matches Some(i) ==> 0 <= i < s.len() && s[i] == c,
    decreases s.len(),
{
    if s.len() > 0 && s.last() != c {
        lemma_last_index_bounds(s.drop_last(), c);
    }
}

/// The position of the last `c` in `s`, if any.
pub fn rfind_char(s: &str, c: char) -> (pos: Option<usize>)
    ensures
        match pos {
            Some(p) => last_index_of(s@, c) == Some(p as int),
            None => last_index_of(s@, c) is None,
        },
{
    let n: usize = s.unicode_len();
    let mut i: usize = n;
    assert(s@.subrange(0, n as int) =~= s@);
    while i > 0
        invariant
            n == s@.len(),
            i <= n,
            last_index_of(s@, c) == last_index_of(s@.subrange(0, i as int), c),
        decreases i,
    {
        let ghost prefix = s@.subrange(0, i as int);
        assert(prefix.drop_last() =~= s@.subrange(0, i - 1));
        if s.get_char(i - 1) == c {
            return Some(i - 1);
        }
        i = i - 1;
    }
    assert(s@.subrange(0, 0) =~= Seq::<char>::empty());
    None
}

/// The keyboard device a selector label stands for: the empty path for
/// `Auto-detect`, otherwise the text between the last `(` and the last `)`;
/// `None` when a parenthesis is missing.
pub open spec fn device_for_label(label: Seq<char>) -> Option<Seq<char>> {
    if label == "Auto-detect"@ {
        Some(Seq::<char>::empty())
    } else {
        match (last_index_of(label, '('), last_index_of(label, ')')) {
            (Some(start), Some(end)) => Some(label.subrange(start + 1, end)),
            _ => None,
        }
    }
}

/// A label whose last `)` comes before its last `(` cannot be cut.
pub open spec fn label_can_be_cut(label: Seq<char>) -> bool {
    match (last_index_of(label, '('), last_index_of(label, ')')) {
        (Some(start), Some(end)) => start < end,
        _ => true,
    }
}

/// The keyboard device a selector label stands for.
pub fn device_from_label(label: &str) -> (device: Option<String>)
    requires
        label_can_be_cut(label@),
    ensures
        match device {
            Some(d) => device_for_label(label@) == Some(d@),
            None => device_for_label(label@) is None,
        },
{
    if str_eq(label, "Auto-detect") {
        return Some(String::new());
    }
    match rfind_char(label, '(') {
        Some(start) => match rfind_char(label, ')') {
            Some(end) => {
                proof {
                    lemma_last_index_bounds(label@, '(');
                    lemma_last_index_bounds(label@, ')');
                }
                Some(to_owned_string(label.substring_char(start + 1, end)))
            },
            None => None,
        },
        None => None,
    }
}

/// The selector label of an input device: its name and, in brackets, its
/// path.
pub fn device_label(name: &str, path: &str) -> (label: String)
    ensures
        label@ == name@ + " ("@ + path@ + ")"@,
{
    let mut label = to_owned_string(name);
    label.append(" (");
    label.append(path);
    label.append(")");
    label
}

proof fn lemma_last_index_skips(s: Seq<char>, t: Seq<char>, c: char)
    requires
        !t.contains(c),
    ensures
        last_index_of(s + t, c) == last_index_of(s, c),
    decreases t.len(),
{
    if t.len() > 0 {
        assert((s + t).last() == t.last());
        assert((s + t).drop_last() =~= s + t.drop_last());
        assert(!t.drop_last().contains(c)) by {
            if t.drop_last().contains(c) {
                let k = choose|k: int| 0 <= k < t.drop_last().len() && t.drop_last()[k] == c;
                assert(t[k] == c);
            }
        }
        lemma_last_index_skips(s, t.drop_last(), c);
    } else {
        assert(s + t =~= s);
    }
}

/// The label built for a device whose path has no brackets can be cut, reads
/// back as that path, and is the label selected for that path.
pub proof fn lemma_device_label_reads_back(name: Seq<char>, path: Seq<char>)
    requires
        !path.contains('('),
        !path.contains(')'),
    ensures
        label_can_be_cut(name + " ("@ + path + ")"@),
        device_for_label(name + " ("@ + path + ")"@) == Some(path),
        path.len() > 0 ==> label_names_device(name + " ("@ + path + ")"@, path),
{
    reveal_strlit(" (");
    reveal_strlit(")");
    reveal_strlit("Auto-detect");
    let head = name + " ("@;
    let label = head + path + ")"@;
    assert(label.last() == ')');
    assert(last_index_of(label, ')') == Some(label.len() - 1));
    assert(label.drop_last() =~= head + path);
    lemma_last_index_skips(head, path, '(');
    assert(head.last() == '(');
    assert(last_index_of(label, '(') == Some(head.len() - 1));
    assert(label.subrange(head.len() as int, label.len() - 1) =~= path);
    assert(label != "Auto-detect"@) by {
        if label == "Auto-detect"@ {
            assert(label[label.len() - 1] == "Auto-detect"@[10]);
        }
    }
    if path.len() > 0 {
        assert(label.subrange(label.len() - path.len() - 2, label.len() as int) =~= seq!['(']
            + path + seq![')']);
    }
}

/// Whether a selector label is that of the configured device: `Auto-detect`
/// when none is configured, otherwise a label ending in the path in brackets.
pub open spec fn label_names_device(label: Seq<char>, device: Seq<char>) -> bool {
    if device.len() == 0 {
        label == "Auto-detect"@
    } else {
        label.len() >= device.len() + 2 && label.subrange(
            label.len() - device.len() - 2,
            label.len() as int,
        ) == seq!['('] + device + seq![')']
    }
}

/// A label names a configured device exactly when it ends with the device's
/// path in brackets: it is some text followed by `(`, the path and `)`.
pub proof fn lemma_label_names_device_iff(label: Seq<char>, device: Seq<char>)
    requires
        device.len() > 0,
    ensures
        label_names_device(label, device) <==> exists|prefix: Seq<char>|
            label == #[trigger] (prefix + seq!['('] + device + seq![')']),
{
    let wrapped = seq!['('] + device + seq![')'];
    if label_names_device(label, device) {
        let base = label.len() - device.len() - 2;
        let prefix = label.subrange(0, base);
        assert(label =~= prefix + label.subrange(base, label.len() as int));
        assert(label.subrange(base, label.len() as int) == wrapped);
        assert(prefix + wrapped =~= prefix + seq!['('] + device + seq![')']);
    }
    if exists|prefix: Seq<char>| label == #[trigger] (prefix + seq!['('] + device + seq![')']) {
        let prefix = choose|prefix: Seq<char>|
            label == #[trigger] (prefix + seq!['('] + device + seq![')']);
        assert(label.subrange(label.len() - device.len() - 2, label.len() as int) =~= wrapped);
    }
}

/// Whether a selector label is that of the configured device.
pub fn label_matches_device(label: &str, device: &str) -> (b: bool)
    ensures
        b == label_names_device(label@, device@),
{
    let d: usize = device.unicode_len();
    if d == 0 {
        return str_eq(label, "Auto-detect");
    }
    let n: usize = label.unicode_len();
    if n < 2 || n - 2 < d {
        return false;
    }
    let ghost wrapped = seq!['('] + device@ + seq![')'];
    let base: usize = n - d - 2;
    if label.get_char(base) != '(' || label.get_char(n - 1) != ')' {
        proof {
            let tail = label@.subrange(base as int, n as int);
            if tail == wrapped {
                assert(tail[0] == wrapped[0]);
                assert(tail[d + 1] == wrapped[d + 1]);
            }
        }
        return false;
    }
    let mut i: usize = 0;
    while i < d
        invariant
            d == device@.len(),
            n == label@.len(),
            base == n - d - 2,
            i <= d,
            forall|j: int| 0 <= j < i ==> label@[base + 1 + j] == device@[j],
        decreases d - i,
    {
        if label.get_char(base + 1 + i) != device.get_char(i) {
            proof {
                let tail = label@.subrange(base as int, n as int);
                if tail == wrapped {
                    assert(tail[i + 1] == wrapped[i + 1]);
                }
            }
            return false;
        }
        i = i + 1;
    }
    assert(label@.subrange(base as int, n as int) =~= wrapped);
    true
}

/// The first position of a label that names the configured device.
pub fn selected_device_index(labels: &Vec<String>, device: &str) -> (index: Option<usize>)
    ensures
        match index {
            Some(i) => i < labels@.len() && label_names_device(labels@[i as int]@, device@)
                && forall|j: int|
                0 <= j < i ==> !label_names_device(#[trigger] labels@[j]@, device@),
            None => forall|j: int|
                0 <= j < labels@.len() ==> !label_names_device(#[trigger] labels@[j]@, device@),
        },
{
    let mut i: usize = 0;
    while i < labels.len()
        invariant
            i <= labels@.len(),
            forall|j: int| 0 <= j < i ==> !label_names_device(#[trigger] labels@[j]@, device@),
        decreases labels@.len() - i,
    {
        if label_matches_device(labels[i].as_str(), device) {
            return Some(i);
        }
        i = i + 1;
    }
    None
}


/// The name of the timer font, listed first in the font selector.
pub const DEFAULT_FONT: &'static str = "Digital-7 Mono";

/// Lexicographic order of character sequences by code point: the order of
/// `str`'s `Ord`.
pub open spec fn chars_le(a: Seq<char>, b: Seq<char>) -> bool
    decreases a.len(),
{
    if a.len() == 0 {
        true
    } else if b.len() == 0 {
        false
    } else if a[0] != b[0] {
        (a[0] as u32) < (b[0] as u32)
    } else {
        chars_le(a.drop_first(), b.drop_first())
    }
}

/// The names are in ascending order.
pub open spec fn names_sorted(names: Seq<Seq<char>>) -> bool {
    forall|i: int, j: int| 0 <= i < j < names.len() ==> chars_le(names[i], names[j])
}

/// Calls `slice::sort` on the names. std documents it as sorting in
/// ascending `Ord` order while keeping every element, and `str`'s `Ord` as
/// lexicographic by byte values, which orders code points by their position.
#[verifier::external_body]
fn sort_names(names: &mut Vec<String>)
    ensures
        final(names).deep_view().to_multiset() == old(names).deep_view().to_multiset(),
        names_sorted(final(names).deep_view()),
{
    names.sort();
}

/// The position of the first name equal to `name`.
pub fn position_of(names: &Vec<String>, name: &str) -> (index: Option<usize>)
    ensures
        match index {
            Some(i) => i < names@.len() && names@[i as int]@ == name@ && forall|j: int|
                0 <= j < i ==> #[trigger] names@[j]@ != name@,
            None => forall|j: int| 0 <= j < names@.len() ==> #[trigger] names@[j]@ != name@,
        },
{
    let mut i: usize = 0;
    while i < names.len()
        invariant
            i <= names@.len(),
            forall|j: int| 0 <= j < i ==> #[trigger] names@[j]@ != name@,
        decreases names@.len() - i,
    {
        if str_eq(names[i].as_str(), name) {
            return Some(i);
        }
        i = i + 1;
    }
    None
}

/// The choices of the font selector: the timer font first, then every other
/// font name in ascending order (one occurrence of the timer font's name is
/// taken out of the list).
pub fn font_choices(fonts: Vec<String>) -> (choices: Vec<String>)
    ensures
        choices@.len() >= 1,
        choices@[0]@ == DEFAULT_FONT@,
        names_sorted(choices.deep_view().drop_first()),
        choices.deep_view().drop_first().to_multiset() == fonts.deep_view().to_multiset().remove(
            DEFAULT_FONT@,
        ),
{
    broadcast use vstd::seq_lib::group_to_multiset_ensures;
    broadcast use vstd::multiset::group_multiset_axioms;

    let mut fonts = fonts;
    sort_names(&mut fonts);
    let ghost sorted = fonts.deep_view();
    match position_of(&fonts, DEFAULT_FONT) {
        Some(pos) => {
            let _ = fonts.remove(pos);
            assert(fonts.deep_view() =~= sorted.remove(pos as int));
            assert(sorted[pos as int] == DEFAULT_FONT@);
        },
        None => {
            assert(!sorted.contains(DEFAULT_FONT@)) by {
                if sorted.contains(DEFAULT_FONT@) {
                    let k = choose|k: int| 0 <= k < sorted.len() && sorted[k] == DEFAULT_FONT@;
                    assert(fonts@[k]@ == DEFAULT_FONT@);
                }
            }
            assert(sorted.to_multiset().count(DEFAULT_FONT@) == 0);
            assert(sorted.to_multiset().remove(DEFAULT_FONT@) =~= sorted.to_multiset());
        },
    }
    let ghost rest = fonts.deep_view();
    fonts.insert(0, to_owned_string(DEFAULT_FONT));
    assert(fonts.deep_view().drop_first() =~= rest);
    fonts
}

} // verus!
