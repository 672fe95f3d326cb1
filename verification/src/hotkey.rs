//! Global hotkey configuration: key parsing, modifier rules, display text and
//! the decision of what the hotkey loop does on a given platform.

use vstd::prelude::*;

use crate::config::{HotkeyConfig, HotkeyConfigView};
use crate::text::{
    chars_of, concat2, lit, nat_digits, push_char, string_from_chars, trim_chars, trim_seq,
    u64_to_decimal, append_str, char_from_ascii_code,
};

verus! {

/// The key of a global hotkey.
#[derive(Debug, Clone, Copy, PartialEq, Eq, Structural)]
pub enum HotkeyKey {
    Space,
    Character(char),
    Function(u8),
}

/// Modifier keys held with the hotkey.
#[derive(Debug, Clone, Copy, PartialEq, Eq, Structural)]
pub struct HotkeyModifiers {
    pub ctrl: bool,
    pub alt: bool,
    pub shift: bool,
    pub meta: bool,
}

/// A key together with its modifiers.
#[derive(Debug, Clone, Copy, PartialEq, Eq, Structural)]
pub struct HotkeyBinding {
    pub key: HotkeyKey,
    pub modifiers: HotkeyModifiers,
}

/// What the configured hotkey amounts to on this platform.
#[derive(Debug, PartialEq, Eq)]
pub enum HotkeyState {
    Disabled,
    ReadyForWindowsMessageLoop(HotkeyBinding),
    UnsupportedPlatform { platform: String },
}

pub enum HotkeyStateView {
    Disabled,
    ReadyForWindowsMessageLoop(HotkeyBinding),
    UnsupportedPlatform { platform: Seq<char> },
}

impl View for HotkeyState {
    type V = HotkeyStateView;

    open spec fn view(&self) -> HotkeyStateView {
        match self {
            HotkeyState::Disabled => HotkeyStateView::Disabled,
            HotkeyState::ReadyForWindowsMessageLoop(b) => HotkeyStateView::ReadyForWindowsMessageLoop(*b),
            HotkeyState::UnsupportedPlatform { platform } => HotkeyStateView::UnsupportedPlatform { platform: platform@ },
        }
    }
}

impl Clone for HotkeyState {
    fn clone(&self) -> (r: Self)
        ensures
            r@ == self@,
    {
        match self {
            HotkeyState::Disabled => HotkeyState::Disabled,
            HotkeyState::ReadyForWindowsMessageLoop(b) => HotkeyState::ReadyForWindowsMessageLoop(*b),
            HotkeyState::UnsupportedPlatform { platform } => HotkeyState::UnsupportedPlatform { platform: platform.clone() },
        }
    }
}

/// How the hotkey loop ended when it did not keep running.
#[derive(Debug, PartialEq, Eq)]
pub enum HotkeyLoopStatus {
    Disabled,
    UnsupportedPlatform { platform: String },
}

/// What running the hotkey loop amounts to: either it ends at once with a
/// status, or the binding must be registered with the Windows message loop,
/// which then keeps running.
#[derive(Debug, PartialEq, Eq)]
pub enum HotkeyLoopStep {
    Finished(HotkeyLoopStatus),
    RegisterWithWindows(HotkeyBinding),
}

/// Why the configured hotkey is invalid.
#[derive(Debug, PartialEq, Eq)]
pub enum HotkeyError {
    EmptyKey,
    UnsupportedKey(String),
    MissingModifier,
}

pub enum HotkeyErrorView {
    EmptyKey,
    UnsupportedKey(Seq<char>),
    MissingModifier,
}

impl View for HotkeyError {
    type V = HotkeyErrorView;

    open spec fn view(&self) -> HotkeyErrorView {
        match self {
            HotkeyError::EmptyKey => HotkeyErrorView::EmptyKey,
            HotkeyError::UnsupportedKey(k) => HotkeyErrorView::UnsupportedKey(k@),
            HotkeyError::MissingModifier => HotkeyErrorView::MissingModifier,
        }
    }
}

impl Clone for HotkeyError {
    fn clone(&self) -> (r: Self)
        ensures
            r@ == self@,
    {
        match self {
            HotkeyError::EmptyKey => HotkeyError::EmptyKey,
            HotkeyError::UnsupportedKey(k) => HotkeyError::UnsupportedKey(k.clone()),
            HotkeyError::MissingModifier => HotkeyError::MissingModifier,
        }
    }
}

pub open spec fn hotkey_error_text(e: HotkeyErrorView) -> Seq<char> {
    match e {
        HotkeyErrorView::EmptyKey => "global hotkey key is empty"@,
        HotkeyErrorView::UnsupportedKey(k) => "global hotkey key '"@ + k + "' is not supported yet"@,
        HotkeyErrorView::MissingModifier => "global hotkey must include at least one modifier"@,
    }
}

impl HotkeyError {
    /// The human-readable error text.
    pub fn message(&self) -> (s: String)
        ensures
            s@ == hotkey_error_text(self@),
    {
        match self {
            HotkeyError::EmptyKey => lit("global hotkey key is empty"),
            HotkeyError::UnsupportedKey(k) => {
                let mut s = concat2("global hotkey key '", k.as_str());
                append_str(&mut s, "' is not supported yet");
                s
            },
            HotkeyError::MissingModifier => lit("global hotkey must include at least one modifier"),
        }
    }
}

/// Why the Windows hotkey loop could not start.
#[derive(Debug, PartialEq, Eq)]
pub enum HotkeyLoopError {
    InvalidBinding { binding: String, reason: String },
    ManagerInit { binding: String, details: String },
    Registration { binding: String, details: String },
}

pub open spec fn hotkey_loop_error_text(e: HotkeyLoopError) -> Seq<char> {
    match e {
        HotkeyLoopError::InvalidBinding { binding, reason } => "configured global hotkey "@ + binding@ + " cannot be registered: "@ + reason@,
        HotkeyLoopError::ManagerInit { binding, details } => "failed to initialize global hotkey manager for "@ + binding@ + ": "@ + details@,
        HotkeyLoopError::Registration { binding, details } => "failed to register global hotkey "@ + binding@ + ": "@ + details@,
    }
}

fn join4(a: &str, b: &str, c: &str, d: &str) -> (r: String)
    ensures
        r@ == a@ + b@ + c@ + d@,
{
    let mut r = concat2(a, b);
    append_str(&mut r, c);
    append_str(&mut r, d);
    r
}

impl HotkeyLoopError {
    /// The human-readable error text.
    pub fn message(&self) -> (s: String)
        ensures
            s@ == hotkey_loop_error_text(*self),
    {
        match self {
            HotkeyLoopError::InvalidBinding { binding, reason } => join4("configured global hotkey ", binding.as_str(), " cannot be registered: ", reason.as_str()),
            HotkeyLoopError::ManagerInit { binding, details } => join4("failed to initialize global hotkey manager for ", binding.as_str(), ": ", details.as_str()),
            HotkeyLoopError::Registration { binding, details } => join4("failed to register global hotkey ", binding.as_str(), ": ", details.as_str()),
        }
    }
}

pub open spec fn is_ascii_digit(c: char) -> bool {
    '0' <= c && c <= '9'
}

pub open spec fn is_ascii_alphanumeric(c: char) -> bool {
    ('a' <= c && c <= 'z') || ('A' <= c && c <= 'Z') || is_ascii_digit(c)
}

pub open spec fn ascii_upper_char(c: char) -> char {
    if 'a' <= c && c <= 'z' {
        ((c as u32) - 32) as char
    } else {
        c
    }
}

/// Value of a string of decimal digits.
pub open spec fn decimal_value(d: Seq<char>) -> nat
    decreases d.len(),
{
    if d.len() == 0 {
        0
    } else {
        decimal_value(d.drop_last()) * 10 + ((d.last() as u32) - 48) as nat
    }
}

/// `u8::from_str` on the text after the `F`: an optional `+`, then at least
/// one decimal digit, with a value that fits in a byte.
pub open spec fn parse_u8_spec(s: Seq<char>) -> Option<nat> {
    let d = unsigned_digits(s);
    if d.len() > 0 && all_digits(d) && decimal_value(d) <= 255 {
        Some(decimal_value(d))
    } else {
        None
    }
}

/// The digits of an unsigned number: the text without one leading `+`.
pub open spec fn unsigned_digits(s: Seq<char>) -> Seq<char> {
    if s.len() > 0 && s[0] == '+' { s.drop_first() } else { s }
}

pub open spec fn all_digits(d: Seq<char>) -> bool {
    forall|i: int| 0 <= i < d.len() ==> is_ascii_digit(#[trigger] d[i])
}

/// `F1` to `F24`, with the `F` in either case.
pub open spec fn function_key_spec(t: Seq<char>) -> Option<u8> {
    if t.len() > 0 && ascii_upper_char(t[0]) == 'F' {
        match parse_u8_spec(t.drop_first()) {
            Some(n) => if 1 <= n <= 24 { Some(n as u8) } else { None },
            None => None,
        }
    } else {
        None
    }
}

/// What a configured key name parses to.
pub open spec fn hotkey_key_spec(input: Seq<char>) -> Result<HotkeyKey, HotkeyErrorView> {
    let t = trim_seq(input);
    if t.len() == 0 {
        Err(HotkeyErrorView::EmptyKey)
    } else if crate::text::ascii_lower(t) == "space"@ {
        Ok(HotkeyKey::Space)
    } else {
        match function_key_spec(t) {
            Some(n) => Ok(HotkeyKey::Function(n)),
            None => if t.len() == 1 && is_ascii_alphanumeric(t[0]) {
                Ok(HotkeyKey::Character(ascii_upper_char(t[0])))
            } else {
                Err(HotkeyErrorView::UnsupportedKey(t))
            },
        }
    }
}

pub open spec fn key_display_spec(k: HotkeyKey) -> Seq<char> {
    match k {
        HotkeyKey::Space => "Space"@,
        HotkeyKey::Character(c) => seq![c],
        HotkeyKey::Function(n) => "F"@ + nat_digits(n as nat),
    }
}

/// The modifier names of a binding, each followed by `+`.
pub open spec fn modifiers_prefix(m: HotkeyModifiers) -> Seq<char> {
    (if m.ctrl { "Ctrl+"@ } else { Seq::empty() })
        + (if m.alt { "Alt+"@ } else { Seq::empty() })
        + (if m.shift { "Shift+"@ } else { Seq::empty() })
        + (if m.meta { "Meta+"@ } else { Seq::empty() })
}

/// The modifiers in order, then the key, joined by `+`; for example
/// `Ctrl+Alt+Space`.
pub open spec fn binding_display_spec(b: HotkeyBinding) -> Seq<char> {
    modifiers_prefix(b.modifiers) + key_display_spec(b.key)
}

pub open spec fn has_any_modifier(m: HotkeyModifiers) -> bool {
    m.ctrl || m.alt || m.shift || m.meta
}

pub open spec fn config_modifiers(c: HotkeyConfigView) -> HotkeyModifiers {
    HotkeyModifiers { ctrl: c.ctrl, alt: c.alt, shift: c.shift, meta: c.meta }
}

/// The hotkey state a configuration gives on `platform`.
pub open spec fn hotkey_state_spec(c: HotkeyConfigView, platform: Seq<char>) -> Result<HotkeyStateView, HotkeyErrorView> {
    if !c.enabled {
        Ok(HotkeyStateView::Disabled)
    } else if !has_any_modifier(config_modifiers(c)) {
        Err(HotkeyErrorView::MissingModifier)
    } else {
        match hotkey_key_spec(c.key) {
            Err(e) => Err(e),
            Ok(key) => if platform == "windows"@ {
                Ok(HotkeyStateView::ReadyForWindowsMessageLoop(HotkeyBinding { key, modifiers: config_modifiers(c) }))
            } else {
                Ok(HotkeyStateView::UnsupportedPlatform { platform })
            },
        }
    }
}

pub open spec fn hotkey_summary_spec(s: HotkeyStateView) -> Seq<char> {
    match s {
        HotkeyStateView::Disabled => "global hotkey disabled"@,
        HotkeyStateView::ReadyForWindowsMessageLoop(b) => "global hotkey "@ + binding_display_spec(b) + " can be registered on Windows"@,
        HotkeyStateView::UnsupportedPlatform { platform } => "global hotkey unsupported on "@ + platform,
    }
}

pub open spec fn hotkey_result_view(r: Result<HotkeyState, HotkeyError>) -> Result<HotkeyStateView, HotkeyErrorView> {
    match r {
        Ok(s) => Ok(s@),
        Err(e) => Err(e@),
    }
}

fn chars_eq_str(v: &Vec<char>, s: &str) -> (b: bool)
    ensures
        b == (v@ == s@),
{
    let w = chars_of(s);
    if v.len() != w.len() {
        return false;
    }
    let mut i: usize = 0;
    while i < v.len()
        invariant
            i <= v@.len(),
            v@.len() == w@.len(),
            w@ == s@,
            forall|j: int| 0 <= j < i ==> v@[j] == w@[j],
        decreases v@.len() - i,
    {
        if v[i] != w[i] {
            return false;
        }
        i += 1;
    }
    proof {
        assert(v@ =~= w@);
    }
    true
}

fn char_to_ascii_uppercase(c: char) -> (r: char)
    ensures
        r == ascii_upper_char(c),
{
    if 'a' <= c && c <= 'z' {
        let u = (c as u32) - 32;
        char_from_ascii_code(u)
    } else {
        c
    }
}

proof fn lemma_decimal_value_push(d: Seq<char>, c: char)
    ensures
        decimal_value(d.push(c)) == decimal_value(d) * 10 + ((c as u32) - 48) as nat,
{
    assert(d.push(c).drop_last() =~= d);
}

/// The function-key number of a trimmed key name, as `F1` to `F24`.
fn parse_function_key(t: &Vec<char>) -> (r: Option<u8>)
    ensures
        r == function_key_spec(t@),
{
    if t.len() == 0 || char_to_ascii_uppercase(t[0]) != 'F' {
        return None;
    }
    let ghost s = t@.drop_first();
    let mut start: usize = 1;
    if t.len() > 1 && t[1] == '+' {
        start = 2;
    }
    let ghost d = t@.subrange(start as int, t@.len() as int);
    proof {
        assert(d =~= unsigned_digits(s));
    }
    if start >= t.len() {
        return None;
    }
    let mut value: u32 = 0;
    let mut i: usize = start;
    proof {
        assert(t@.subrange(start as int, start as int) =~= Seq::<char>::empty());
    }
    while i < t.len()
        invariant
            1 <= start <= i <= t@.len(),
            d == t@.subrange(start as int, t@.len() as int),
            s == t@.drop_first(),
            ascii_upper_char(t@[0]) == 'F',
            d == unsigned_digits(s),
            forall|j: int| start <= j < i ==> is_ascii_digit(#[trigger] t@[j]),
            value <= 256,
            value == (if decimal_value(t@.subrange(start as int, i as int)) <= 256 { decimal_value(t@.subrange(start as int, i as int)) } else { 256 }),
        decreases t@.len() - i,
    {
        let c = t[i];
        if !('0' <= c && c <= '9') {
            proof {
                assert(d[i - start] == c);
                assert(!is_ascii_digit(d[i - start]));
                assert(!all_digits(d));
            }
            return None;
        }
        proof {
            lemma_decimal_value_push(t@.subrange(start as int, i as int), c);
            assert(t@.subrange(start as int, i as int).push(c) =~= t@.subrange(start as int, i as int + 1));
        }
        let digit = (c as u32) - 48;
        let next = value * 10 + digit;
        value = if next > 256 { 256 } else { next };
        i += 1;
    }
    proof {
        assert(t@.subrange(start as int, i as int) =~= d);
        assert forall|j: int| 0 <= j < d.len() implies is_ascii_digit(#[trigger] d[j]) by {
            assert(d[j] == t@[j + start]);
        }
    }
    if value > 255 || value < 1 || value > 24 {
        return None;
    }
    Some(value as u8)
}

impl HotkeyKey {
    /// Parse a configured key name: `space` in any case, `F1` to `F24`, or a
    /// single ASCII letter or digit, which is taken in upper case.
    pub fn parse(input: &str) -> (r: Result<HotkeyKey, HotkeyError>)
        ensures
            match (r, hotkey_key_spec(input@)) {
                (Ok(k), Ok(sk)) => k == sk,
                (Err(e), Err(se)) => e@ == se,
                _ => false,
            },
    {
        let v = chars_of(input);
        let t = trim_chars(&v);
        if t.len() == 0 {
            return Err(HotkeyError::EmptyKey);
        }
        let lower = crate::text::lower_chars(&t);
        if chars_eq_str(&lower, "space") {
            return Ok(HotkeyKey::Space);
        }
        match parse_function_key(&t) {
            Some(n) => Ok(HotkeyKey::Function(n)),
            None => {
                let c = t[0];
                let alnum = ('a' <= c && c <= 'z') || ('A' <= c && c <= 'Z') || ('0' <= c && c <= '9');
                if t.len() == 1 && alnum {
                    Ok(HotkeyKey::Character(char_to_ascii_uppercase(c)))
                } else {
                    Err(HotkeyError::UnsupportedKey(string_from_chars(&t)))
                }
            },
        }
    }

    /// The key's name as shown to the user.
    pub fn display(&self) -> (s: String)
        ensures
            s@ == key_display_spec(*self),
    {
        match self {
            HotkeyKey::Space => lit("Space"),
            HotkeyKey::Character(c) => {
                let mut s = String::new();
                push_char(&mut s, *c);
                proof {
                    assert(s@ =~= seq![*c]);
                }
                s
            },
            HotkeyKey::Function(n) => {
                let digits = u64_to_decimal(*n as u64);
                concat2("F", digits.as_str())
            },
        }
    }
}

impl HotkeyModifiers {
    /// Whether at least one modifier is held.
    pub fn has_any(self) -> (b: bool)
        ensures
            b == has_any_modifier(self),
    {
        self.ctrl || self.alt || self.shift || self.meta
    }
}

impl HotkeyBinding {
    /// The binding a configuration asks for; a binding without modifiers is
    /// refused before its key is looked at.
    pub fn from_config(config: &HotkeyConfig) -> (r: Result<HotkeyBinding, HotkeyError>)
        ensures
            !has_any_modifier(config_modifiers(config@)) ==> r == Err::<HotkeyBinding, HotkeyError>(HotkeyError::MissingModifier),
            has_any_modifier(config_modifiers(config@)) ==> match (r, hotkey_key_spec(config@.key)) {
                (Ok(b), Ok(k)) => b == (HotkeyBinding { key: k, modifiers: config_modifiers(config@) }),
                (Err(e), Err(se)) => e@ == se,
                _ => false,
            },
    {
        let modifiers = HotkeyModifiers { ctrl: config.ctrl, alt: config.alt, shift: config.shift, meta: config.meta };
        if !modifiers.has_any() {
            return Err(HotkeyError::MissingModifier);
        }
        match HotkeyKey::parse(config.key.as_str()) {
            Ok(key) => Ok(HotkeyBinding { key, modifiers }),
            Err(e) => Err(e),
        }
    }

    /// The binding as shown to the user, such as `Ctrl+Alt+Space`.
    pub fn display(&self) -> (s: String)
        ensures
            s@ == binding_display_spec(*self),
    {
        let mut s = String::new();
        if self.modifiers.ctrl {
            append_str(&mut s, "Ctrl+");
        }
        if self.modifiers.alt {
            append_str(&mut s, "Alt+");
        }
        if self.modifiers.shift {
            append_str(&mut s, "Shift+");
        }
        if self.modifiers.meta {
            append_str(&mut s, "Meta+");
        }
        let k = self.key.display();
        append_str(&mut s, k.as_str());
        proof {
            assert(s@ =~= binding_display_spec(*self));
        }
        s
    }
}

impl HotkeyState {
    /// The hotkey state of a configuration on `platform` (an operating
    /// system name such as `windows` or `linux`).
    pub fn from_config(config: &HotkeyConfig, platform: &str) -> (r: Result<HotkeyState, HotkeyError>)
        ensures
            hotkey_result_view(r) == hotkey_state_spec(config@, platform@),
    {
        if !config.enabled {
            return Ok(HotkeyState::Disabled);
        }
        let binding = match HotkeyBinding::from_config(config) {
            Ok(b) => b,
            Err(e) => return Err(e),
        };
        if chars_eq_str(&chars_of(platform), "windows") {
            Ok(HotkeyState::ReadyForWindowsMessageLoop(binding))
        } else {
            Ok(HotkeyState::UnsupportedPlatform { platform: lit(platform) })
        }
    }

    /// One line describing the hotkey state.
    pub fn summary(&self) -> (s: String)
        ensures
            s@ == hotkey_summary_spec(self@),
    {
        match self {
            HotkeyState::Disabled => lit("global hotkey disabled"),
            HotkeyState::ReadyForWindowsMessageLoop(binding) => {
                let d = binding.display();
                let mut s = concat2("global hotkey ", d.as_str());
                append_str(&mut s, " can be registered on Windows");
                s
            },
            HotkeyState::UnsupportedPlatform { platform } => concat2("global hotkey unsupported on ", platform.as_str()),
        }
    }

    /// The binding to register, when the state is ready for Windows.
    pub fn windows_binding(&self) -> (r: Option<&HotkeyBinding>)
        ensures
            match self@ {
                HotkeyStateView::ReadyForWindowsMessageLoop(b) => r == Some(&b),
                _ => r is None,
            },
    {
        match self {
            HotkeyState::ReadyForWindowsMessageLoop(binding) => Some(binding),
            _ => None,
        }
    }
}

pub enum HotkeyLoopStatusView {
    Disabled,
    UnsupportedPlatform { platform: Seq<char> },
}

pub enum HotkeyLoopStepView {
    Finished(HotkeyLoopStatusView),
    RegisterWithWindows(HotkeyBinding),
}

impl View for HotkeyLoopStep {
    type V = HotkeyLoopStepView;

    open spec fn view(&self) -> HotkeyLoopStepView {
        match self {
            HotkeyLoopStep::Finished(HotkeyLoopStatus::Disabled) => HotkeyLoopStepView::Finished(HotkeyLoopStatusView::Disabled),
            HotkeyLoopStep::Finished(HotkeyLoopStatus::UnsupportedPlatform { platform }) => HotkeyLoopStepView::Finished(HotkeyLoopStatusView::UnsupportedPlatform { platform: platform@ }),
            HotkeyLoopStep::RegisterWithWindows(b) => HotkeyLoopStepView::RegisterWithWindows(*b),
        }
    }
}

/// What the hotkey loop does for a state on `platform`: a disabled or
/// unsupported hotkey ends it at once; a ready binding is registered with the
/// Windows message loop there, and reports the platform as unsupported
/// anywhere else.
pub open spec fn run_hotkey_loop_spec(state: HotkeyStateView, platform: Seq<char>) -> HotkeyLoopStepView {
    match state {
        HotkeyStateView::Disabled => HotkeyLoopStepView::Finished(HotkeyLoopStatusView::Disabled),
        HotkeyStateView::UnsupportedPlatform { platform: p } => HotkeyLoopStepView::Finished(HotkeyLoopStatusView::UnsupportedPlatform { platform: p }),
        HotkeyStateView::ReadyForWindowsMessageLoop(b) => if platform == "windows"@ {
            HotkeyLoopStepView::RegisterWithWindows(b)
        } else {
            HotkeyLoopStepView::Finished(HotkeyLoopStatusView::UnsupportedPlatform { platform })
        },
    }
}

pub fn run_hotkey_loop(state: &HotkeyState, platform: &str) -> (r: HotkeyLoopStep)
    ensures
        r@ == run_hotkey_loop_spec(state@, platform@),
{
    match state {
        HotkeyState::Disabled => HotkeyLoopStep::Finished(HotkeyLoopStatus::Disabled),
        HotkeyState::UnsupportedPlatform { platform: p } => HotkeyLoopStep::Finished(HotkeyLoopStatus::UnsupportedPlatform { platform: p.clone() }),
        HotkeyState::ReadyForWindowsMessageLoop(binding) => {
            if chars_eq_str(&chars_of(platform), "windows") {
                HotkeyLoopStep::RegisterWithWindows(*binding)
            } else {
                HotkeyLoopStep::Finished(HotkeyLoopStatus::UnsupportedPlatform { platform: lit(platform) })
            }
        },
    }
}


/// A key as the Windows hotkey registration knows it.
#[derive(Debug, Clone, Copy, PartialEq, Eq, Structural)]
pub enum HotkeyCode {
    Space,
    /// `A` to `Z`.
    Letter(char),
    /// `0` to `9`.
    Digit(char),
    /// `F1` to `F24`.
    Function(u8),
}

/// A binding in the form the Windows registration takes: modifier flags and
/// a key code.
#[derive(Debug, Clone, Copy, PartialEq, Eq, Structural)]
pub struct WindowsHotkey {
    pub control: bool,
    pub alt: bool,
    pub shift: bool,
    pub super_key: bool,
    pub code: HotkeyCode,
}

/// The Windows key code of a key: letters in either case, digits, space and
/// `F1` to `F24`; anything else has none.
pub open spec fn hotkey_code_spec(key: HotkeyKey) -> Option<HotkeyCode> {
    match key {
        HotkeyKey::Space => Some(HotkeyCode::Space),
        HotkeyKey::Character(c) => {
            let u = ascii_upper_char(c);
            if 'A' <= u && u <= 'Z' {
                Some(HotkeyCode::Letter(u))
            } else if '0' <= u && u <= '9' {
                Some(HotkeyCode::Digit(u))
            } else {
                None
            }
        },
        HotkeyKey::Function(n) => if 1 <= n <= 24 { Some(HotkeyCode::Function(n)) } else { None },
    }
}

pub fn hotkey_code(key: &HotkeyKey) -> (r: Option<HotkeyCode>)
    ensures
        r == hotkey_code_spec(*key),
{
    match key {
        HotkeyKey::Space => Some(HotkeyCode::Space),
        HotkeyKey::Character(c) => {
            let u = char_to_ascii_uppercase(*c);
            if 'A' <= u && u <= 'Z' {
                Some(HotkeyCode::Letter(u))
            } else if '0' <= u && u <= '9' {
                Some(HotkeyCode::Digit(u))
            } else {
                None
            }
        },
        HotkeyKey::Function(n) => if 1 <= *n && *n <= 24 { Some(HotkeyCode::Function(*n)) } else { None },
    }
}

/// The Windows registration of a binding; a binding without modifiers, or
/// with a key outside the supported set, is refused with its display text.
pub fn windows_global_hotkey(binding: &HotkeyBinding) -> (r: Result<WindowsHotkey, HotkeyLoopError>)
    ensures
        !has_any_modifier(binding.modifiers) ==> (r matches Err(HotkeyLoopError::InvalidBinding { binding: b, reason })
            && b@ == binding_display_spec(*binding) && reason@ == "at least one modifier is required"@),
        has_any_modifier(binding.modifiers) ==> match hotkey_code_spec(binding.key) {
            Some(code) => r == Ok::<WindowsHotkey, HotkeyLoopError>(WindowsHotkey {
                control: binding.modifiers.ctrl,
                alt: binding.modifiers.alt,
                shift: binding.modifiers.shift,
                super_key: binding.modifiers.meta,
                code,
            }),
            None => r matches Err(HotkeyLoopError::InvalidBinding { binding: b, reason })
                && b@ == binding_display_spec(*binding) && reason@ == "key is outside the supported launcher hotkey set"@,
        },
{
    let label = binding.display();
    if !binding.modifiers.has_any() {
        return Err(HotkeyLoopError::InvalidBinding { binding: label, reason: lit("at least one modifier is required") });
    }
    match hotkey_code(&binding.key) {
        Some(code) => Ok(WindowsHotkey {
            control: binding.modifiers.ctrl,
            alt: binding.modifiers.alt,
            shift: binding.modifiers.shift,
            super_key: binding.modifiers.meta,
            code,
        }),
        None => Err(HotkeyLoopError::InvalidBinding { binding: label, reason: lit("key is outside the supported launcher hotkey set") }),
    }
}

/// Key names are read without regard to ASCII case and surrounding
/// whitespace: any spelling of "space" names the space bar, and a single
/// letter or digit names that key in upper case.
pub proof fn law_key_names_ignore_case(input: Seq<char>)
    ensures
        ({
            let t = trim_seq(input);
            &&& t.len() == 5
            &&& (t[0] == 's' || t[0] == 'S')
            &&& (t[1] == 'p' || t[1] == 'P')
            &&& (t[2] == 'a' || t[2] == 'A')
            &&& (t[3] == 'c' || t[3] == 'C')
            &&& (t[4] == 'e' || t[4] == 'E')
        }) ==> hotkey_key_spec(input) == Ok::<HotkeyKey, HotkeyErrorView>(HotkeyKey::Space),
        ({
            let t = trim_seq(input);
            t.len() == 1 && 'a' <= t[0] <= 'z'
        }) ==> hotkey_key_spec(input) == Ok::<HotkeyKey, HotkeyErrorView>(HotkeyKey::Character(((trim_seq(input)[0] as u32) - 32) as char)),
        ({
            let t = trim_seq(input);
            t.len() == 1 && (('A' <= t[0] <= 'Z') || ('0' <= t[0] <= '9'))
        }) ==> hotkey_key_spec(input) == Ok::<HotkeyKey, HotkeyErrorView>(HotkeyKey::Character(trim_seq(input)[0])),
{
    let t = trim_seq(input);
    reveal_strlit("space");
    if t.len() == 5 && (t[0] == 's' || t[0] == 'S') && (t[1] == 'p' || t[1] == 'P') && (t[2] == 'a' || t[2] == 'A')
        && (t[3] == 'c' || t[3] == 'C') && (t[4] == 'e' || t[4] == 'E') {
        assert(crate::text::ascii_lower(t) =~= "space"@);
    }
    if t.len() == 1 {
        assert(crate::text::ascii_lower(t).len() == 1);
    }
}
} // verus!
