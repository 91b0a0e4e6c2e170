//! UEFI Console related protocols
//!
//! The console protocol itself lives in firmware; this module holds what is
//! read from it, as plain values, and decides what to hand it.
use vstd::prelude::*;
use vstd::string::StringSliceAdditionalSpecFns;

use crate::error::{error_of, status_result, EfiStatus, Result, UefiError};
use crate::proto::{Entity, Guid};
use crate::string::{encode_char_utf16, encode_utf16};

verus! {

/// Text foreground attributes for [SimpleTextOutput]
#[derive(Debug, Clone, Copy, PartialEq, Eq, Structural)]
pub struct TextForeground(pub usize);

impl TextForeground {
    /// black
    pub fn black() -> (r: Self)
        ensures
            r.0 == 0,
    {
        Self(0)
    }

    /// blue
    pub fn blue() -> (r: Self)
        ensures
            r.0 == 1,
    {
        Self(1)
    }

    /// green
    pub fn green() -> (r: Self)
        ensures
            r.0 == 2,
    {
        Self(2)
    }

    /// cyan
    pub fn cyan() -> (r: Self)
        ensures
            r.0 == 3,
    {
        Self(3)
    }

    /// red
    pub fn red() -> (r: Self)
        ensures
            r.0 == 4,
    {
        Self(4)
    }

    /// magenta
    pub fn magenta() -> (r: Self)
        ensures
            r.0 == 5,
    {
        Self(5)
    }

    /// brown
    pub fn brown() -> (r: Self)
        ensures
            r.0 == 6,
    {
        Self(6)
    }

    /// light gray
    pub fn light_gray() -> (r: Self)
        ensures
            r.0 == 7,
    {
        Self(7)
    }

    /// bright
    pub fn bright() -> (r: Self)
        ensures
            r.0 == 8,
    {
        Self(8)
    }

    /// dark gray
    pub fn dark_gray() -> (r: Self)
        ensures
            r.0 == 8,
    {
        Self(8)
    }

    /// light blue
    pub fn light_blue() -> (r: Self)
        ensures
            r.0 == 9,
    {
        Self(9)
    }

    /// light green
    pub fn light_green() -> (r: Self)
        ensures
            r.0 == 10,
    {
        Self(10)
    }

    /// light cyan
    pub fn light_cyan() -> (r: Self)
        ensures
            r.0 == 11,
    {
        Self(11)
    }

    /// light red
    pub fn light_red() -> (r: Self)
        ensures
            r.0 == 12,
    {
        Self(12)
    }

    /// light magenta
    pub fn light_magenta() -> (r: Self)
        ensures
            r.0 == 13,
    {
        Self(13)
    }

    /// yellow
    pub fn yellow() -> (r: Self)
        ensures
            r.0 == 14,
    {
        Self(14)
    }

    /// white
    pub fn white() -> (r: Self)
        ensures
            r.0 == 15,
    {
        Self(15)
    }
}

/// Text background attributes for [SimpleTextOutput]
#[derive(Debug, Clone, Copy, PartialEq, Eq, Structural)]
pub struct TextBackground(pub usize);

impl TextBackground {
    /// black
    pub fn black() -> (r: Self)
        ensures
            r.0 == 0,
    {
        Self(0)
    }

    /// blue
    pub fn blue() -> (r: Self)
        ensures
            r.0 == 1,
    {
        Self(1)
    }

    /// green
    pub fn green() -> (r: Self)
        ensures
            r.0 == 2,
    {
        Self(2)
    }

    /// cyan
    pub fn cyan() -> (r: Self)
        ensures
            r.0 == 3,
    {
        Self(3)
    }

    /// red
    pub fn red() -> (r: Self)
        ensures
            r.0 == 4,
    {
        Self(4)
    }

    /// magenta
    pub fn magenta() -> (r: Self)
        ensures
            r.0 == 5,
    {
        Self(5)
    }

    /// brown
    pub fn brown() -> (r: Self)
        ensures
            r.0 == 6,
    {
        Self(6)
    }

    /// light gray
    pub fn light_gray() -> (r: Self)
        ensures
            r.0 == 7,
    {
        Self(7)
    }
}

/// The console mode structure, as firmware keeps it
#[derive(Debug, Clone, Copy, PartialEq, Eq, Structural)]
pub struct RawTextMode {
    pub max_mode: i32,
    pub mode: i32,
    pub attribute: i32,
    pub cursor_column: i32,
    pub cursor_row: i32,
    pub cursor_visible: bool,
}

/// Raw console output protocol
///
/// Each service entry is held as its address, `None` where firmware left it
/// out; `mode` is the address of the [`RawTextMode`].
#[derive(Debug, Clone, Copy, PartialEq, Eq, Structural)]
pub struct RawSimpleTextOutput {
    pub reset: Option<usize>,
    pub output_string: Option<usize>,
    pub test_string: Option<usize>,
    pub query_mode: Option<usize>,
    pub set_mode: Option<usize>,
    pub set_attribute: Option<usize>,
    pub clear_screen: Option<usize>,
    pub set_cursor_position: Option<usize>,
    pub enable_cursor: Option<usize>,
    pub mode: usize,
}

impl RawSimpleTextOutput {
    /// A console output protocol with only `reset`, `output_string` and
    /// `clear_screen`, at the given entry points, and no mode structure
    pub fn mock(reset: usize, output_string: usize, clear_screen: usize) -> (r: Self)
        ensures
            r == (RawSimpleTextOutput {
                reset: Some(reset),
                output_string: Some(output_string),
                test_string: None,
                query_mode: None,
                set_mode: None,
                set_attribute: None,
                clear_screen: Some(clear_screen),
                set_cursor_position: None,
                enable_cursor: None,
                mode: 0,
            }),
    {
        Self {
            reset: Some(reset),
            output_string: Some(output_string),
            test_string: None,
            query_mode: None,
            set_mode: None,
            set_attribute: None,
            clear_screen: Some(clear_screen),
            set_cursor_position: None,
            enable_cursor: None,
            mode: 0,
        }
    }
}

/// Raw console input protocol. It defines nothing this library uses.
#[derive(Debug, Clone, Copy, PartialEq, Eq, Structural)]
pub struct RawSimpleTextInput {
}

/// The foreground of an attribute byte: its low four bits
pub open spec fn attribute_fore(attribute: i32) -> int {
    (attribute as u8) as int % 16
}

/// The background of an attribute byte: its high four bits
pub open spec fn attribute_back(attribute: i32) -> int {
    (attribute as u8) as int / 16
}

/// The attribute value for a foreground and a background
pub open spec fn attribute_value(fore: TextForeground, back: TextBackground) -> int {
    fore.0 as int + back.0 as int * 16
}

/// The console output protocol, as read from firmware: its services and the
/// mode structure they point at
#[derive(Debug, Clone, Copy)]
pub struct SimpleTextOutput {
    /// The protocol's service entries
    pub raw: RawSimpleTextOutput,

    /// The mode structure
    pub mode: RawTextMode,
}

/// The two attribute values a scoped color change hands firmware: the one
/// set before the closure runs, and the one restored after it
#[derive(Debug, Clone, Copy, PartialEq, Eq, Structural)]
pub struct AttributeScope {
    /// Value to set before running the closure
    pub set: usize,

    /// Value to restore afterwards
    pub restore: usize,
}

/// Where a scoped color change stands
#[derive(Debug, Clone, Copy, PartialEq, Eq, Structural)]
pub enum ScopePhase {
    /// Nothing done yet
    Start,

    /// The colors to use were handed to firmware
    Setting,

    /// The closure runs
    Running,

    /// The colors to restore were handed to firmware
    Restoring,

    /// Over
    Done,
}

/// What happened since the last step of a scoped color change
#[derive(Debug, Clone, Copy)]
pub enum ScopeEvent {
    /// The change begins
    Begin,

    /// What setting the colors answered
    SetAnswered(Result<()>),

    /// The closure returned
    ClosureReturned,

    /// What restoring the colors answered
    RestoreAnswered(Result<()>),
}

/// What to do next in a scoped color change
#[derive(Debug, Clone, Copy)]
pub enum ScopeAction {
    /// Hand firmware this attribute value
    SetAttribute(usize),

    /// Run the closure
    RunClosure,

    /// Hand firmware this attribute value, the one there before
    RestoreAttribute(usize),

    /// The change is over, with this result
    Finish(Result<()>),
}

/// Whether `ev` is what can happen in phase `p`
pub open spec fn scope_expects(p: ScopePhase, ev: ScopeEvent) -> bool {
    match ev {
        ScopeEvent::Begin => p == ScopePhase::Start,
        ScopeEvent::SetAnswered(_) => p == ScopePhase::Setting,
        ScopeEvent::ClosureReturned => p == ScopePhase::Running,
        ScopeEvent::RestoreAnswered(_) => p == ScopePhase::Restoring,
    }
}

/// The phase after `ev`
pub open spec fn scope_phase_after(ev: ScopeEvent) -> ScopePhase {
    match ev {
        ScopeEvent::Begin => ScopePhase::Setting,
        ScopeEvent::SetAnswered(Ok(())) => ScopePhase::Running,
        ScopeEvent::SetAnswered(Err(_)) => ScopePhase::Done,
        ScopeEvent::ClosureReturned => ScopePhase::Restoring,
        ScopeEvent::RestoreAnswered(_) => ScopePhase::Done,
    }
}

/// Whether the step after `ev` runs the closure
pub open spec fn scope_runs_closure(ev: ScopeEvent) -> bool {
    ev matches ScopeEvent::SetAnswered(Ok(()))
}

/// Whether `evs` can happen one after another from phase `p`
pub open spec fn scope_trace(p: ScopePhase, evs: Seq<ScopeEvent>) -> bool
    decreases evs.len(),
{
    evs.len() == 0 || (scope_expects(p, evs[0]) && scope_trace(scope_phase_after(evs[0]), evs.drop_first()))
}

/// How many times the closure runs over `evs`, from phase `p`
pub open spec fn scope_runs(p: ScopePhase, evs: Seq<ScopeEvent>) -> nat
    decreases evs.len(),
{
    if evs.len() == 0 {
        0
    } else {
        (if scope_runs_closure(evs[0]) { 1nat } else { 0nat }) + scope_runs(scope_phase_after(evs[0]), evs.drop_first())
    }
}

/// A scoped color change: set the colors, run the closure if that worked,
/// then restore the colors there before
#[derive(Debug)]
pub struct ScopeMachine {
    scope: AttributeScope,
    phase: ScopePhase,
}

impl ScopeMachine {
    /// The values to set and restore
    pub closed spec fn spec_scope(&self) -> AttributeScope {
        self.scope
    }

    /// Where the change stands
    pub closed spec fn spec_phase(&self) -> ScopePhase {
        self.phase
    }

    /// A change that sets and restores the values of `scope`
    pub fn new(scope: AttributeScope) -> (r: Self)
        ensures
            r.spec_scope() == scope,
            r.spec_phase() == ScopePhase::Start,
    {
        ScopeMachine { scope, phase: ScopePhase::Start }
    }

    /// Where the change stands
    pub fn phase(&self) -> (r: ScopePhase)
        ensures
            r == self.spec_phase(),
    {
        self.phase
    }

    /// Whether `ev` is what can happen now
    pub fn accepts(&self, ev: &ScopeEvent) -> (r: bool)
        ensures
            r == scope_expects(self.spec_phase(), *ev),
    {
        match ev {
            ScopeEvent::Begin => self.phase == ScopePhase::Start,
            ScopeEvent::SetAnswered(_) => self.phase == ScopePhase::Setting,
            ScopeEvent::ClosureReturned => self.phase == ScopePhase::Running,
            ScopeEvent::RestoreAnswered(_) => self.phase == ScopePhase::Restoring,
        }
    }

    /// The next step, after `ev`: set the colors at the start; run the
    /// closure once setting worked, or finish with its error; restore once
    /// the closure returned; finish with what restoring answered
    pub fn step(&mut self, ev: ScopeEvent) -> (r: ScopeAction)
        requires
            scope_expects(old(self).spec_phase(), ev),
        ensures
            final(self).spec_scope() == old(self).spec_scope(),
            final(self).spec_phase() == scope_phase_after(ev),
            (r is RunClosure) == scope_runs_closure(ev),
            match ev {
                ScopeEvent::Begin => r matches ScopeAction::SetAttribute(v) && v == old(self).spec_scope().set,
                ScopeEvent::SetAnswered(Ok(())) => r is RunClosure,
                ScopeEvent::SetAnswered(Err(e)) => r matches ScopeAction::Finish(Err(x)) && x == e,
                ScopeEvent::ClosureReturned => r matches ScopeAction::RestoreAttribute(v) && v == old(self).spec_scope().restore,
                ScopeEvent::RestoreAnswered(x) => r matches ScopeAction::Finish(y) && y == x,
            },
    {
        match ev {
            ScopeEvent::Begin => {
                self.phase = ScopePhase::Setting;
                ScopeAction::SetAttribute(self.scope.set)
            },
            ScopeEvent::SetAnswered(Ok(())) => {
                self.phase = ScopePhase::Running;
                ScopeAction::RunClosure
            },
            ScopeEvent::SetAnswered(Err(e)) => {
                self.phase = ScopePhase::Done;
                ScopeAction::Finish(Err(e))
            },
            ScopeEvent::ClosureReturned => {
                self.phase = ScopePhase::Restoring;
                ScopeAction::RestoreAttribute(self.scope.restore)
            },
            ScopeEvent::RestoreAnswered(x) => {
                self.phase = ScopePhase::Done;
                ScopeAction::Finish(x)
            },
        }
    }
}

/// Over any run of a scoped color change, the closure runs at most once: it
/// runs only right after setting the colors worked, which happens once
pub proof fn lemma_closure_runs_once(p: ScopePhase, evs: Seq<ScopeEvent>)
    requires
        scope_trace(p, evs),
    ensures
        scope_runs(p, evs) <= (if p == ScopePhase::Start || p == ScopePhase::Setting { 1nat } else { 0nat }),
    decreases evs.len(),
{
    if evs.len() > 0 {
        lemma_closure_runs_once(scope_phase_after(evs[0]), evs.drop_first());
    }
}

impl SimpleTextOutput {
    /// The attribute value `SetAttribute` is given for `fore` on `back`
    pub fn set_attributes(fore: TextForeground, back: TextBackground) -> (r: usize)
        requires
            fore.0 < 16,
            back.0 < 16,
        ensures
            r == attribute_value(fore, back),
    {
        fore.0 + back.0 * 16
    }

    /// Current text attributes
    pub fn attributes(&self) -> (r: (TextForeground, TextBackground))
        ensures
            r.0.0 == attribute_fore(self.mode.attribute),
            r.1.0 == attribute_back(self.mode.attribute),
    {
        let attr: u8 = self.mode.attribute as u8;
        let f: u8 = attr % 16;
        let b: u8 = attr / 16;
        (TextForeground(f as usize), TextBackground(b as usize))
    }

    /// Use these colors within a closure, restoring the current ones
    /// afterwards: the values to set and to restore
    pub fn with_attributes(&self, fore: TextForeground, back: TextBackground) -> (r: AttributeScope)
        requires
            fore.0 < 16,
            back.0 < 16,
        ensures
            r.set == attribute_value(fore, back),
            r.restore == attribute_fore(self.mode.attribute) + attribute_back(self.mode.attribute) * 16,
    {
        let cur = self.attributes();
        AttributeScope {
            set: SimpleTextOutput::set_attributes(fore, back),
            restore: SimpleTextOutput::set_attributes(cur.0, cur.1),
        }
    }

    /// Use this foreground color within a closure: the values to set and to
    /// restore
    pub fn with_foreground(&self, fore: TextForeground) -> (r: AttributeScope)
        requires
            fore.0 < 16,
        ensures
            r.set == fore.0 + attribute_back(self.mode.attribute) * 16,
            r.restore == attribute_fore(self.mode.attribute) + attribute_back(self.mode.attribute) * 16,
    {
        let back = self.attributes().1;
        self.with_attributes(fore, back)
    }

    /// Use this background color within a closure: the values to set and to
    /// restore
    pub fn with_background(&self, back: TextBackground) -> (r: AttributeScope)
        requires
            back.0 < 16,
        ensures
            r.set == attribute_fore(self.mode.attribute) + back.0 * 16,
            r.restore == attribute_fore(self.mode.attribute) + attribute_back(self.mode.attribute) * 16,
    {
        let fore = self.attributes().0;
        self.with_attributes(fore, back)
    }

    /// Set the text background color: the attribute value to set
    pub fn set_background(&self, back: TextBackground) -> (r: usize)
        requires
            back.0 < 16,
        ensures
            r == attribute_fore(self.mode.attribute) + back.0 * 16,
    {
        let fore = self.attributes().0;
        SimpleTextOutput::set_attributes(fore, back)
    }

    /// What firmware's answer to `query_mode` for `mode` means
    pub fn query_mode(mode: u32, status: EfiStatus, cols: usize, rows: usize) -> (r: Result<TextMode>)
        ensures
            (r is Ok) == (status.0 == 0),
            r matches Ok(m) ==> m.spec_mode() == mode && m.spec_size() == (cols, rows),
            r matches Err(e) ==> e == error_of(status),
    {
        if status.is_success() {
            Ok(TextMode::new(mode, (cols, rows)))
        } else {
            Err(UefiError::new(status))
        }
    }

    /// The terminal output modes to query, in order: every mode below the
    /// mode count
    pub fn modes(&self) -> (r: Vec<u32>)
        ensures
            r@.len() == (if self.mode.max_mode > 0 { self.mode.max_mode as int } else { 0 }),
            forall|i: int| 0 <= i < r@.len() ==> r@[i] == i,
    {
        let mut out: Vec<u32> = Vec::new();
        let mut mode: i32 = 0;
        while mode < self.mode.max_mode
            invariant
                0 <= mode,
                mode <= self.mode.max_mode || mode == 0,
                out@.len() == mode,
                forall|i: int| 0 <= i < out@.len() ==> out@[i] == i,
            decreases self.mode.max_mode - mode,
        {
            out.push(mode as u32);
            mode = mode + 1;
        }
        out
    }

    /// The number of the current mode, which `mode` queries
    pub fn mode(&self) -> (r: u32)
        ensures
            r == self.mode.mode as u32,
    {
        self.mode.mode as u32
    }

    /// The entry point of `output_string`, or `UNSUPPORTED` where firmware
    /// left it out
    pub fn output_string(&self) -> (r: Result<usize>)
        ensures
            r == (match self.raw.output_string {
                Some(f) => Ok(f),
                None => Err(error_of(EfiStatus::spec_unsupported())),
            }),
    {
        match self.raw.output_string {
            Some(f) => Ok(f),
            None => Err(UefiError::new(EfiStatus::unsupported())),
        }
    }
}

/// UEFI Text Mode Information
#[derive(Debug, Clone, Copy)]
pub struct TextMode {
    /// Mode number
    mode: u32,

    /// (Cols, Rows)
    size: (usize, usize),
}

impl TextMode {
    /// Mode number
    pub closed spec fn spec_mode(&self) -> u32 {
        self.mode
    }

    /// Size (Cols, Rows)
    pub closed spec fn spec_size(&self) -> (usize, usize) {
        self.size
    }

    /// Text mode `mode` of `size` (Cols, Rows)
    pub fn new(mode: u32, size: (usize, usize)) -> (r: Self)
        ensures
            r.spec_mode() == mode,
            r.spec_size() == size,
    {
        Self { mode, size }
    }

    /// Mode number
    #[verifier::when_used_as_spec(spec_mode)]
    pub fn mode(&self) -> (r: u32)
        ensures
            r == self.spec_mode(),
    {
        self.mode
    }

    /// Size (Cols, Rows)
    #[verifier::when_used_as_spec(spec_size)]
    pub fn size(&self) -> (r: (usize, usize))
        ensures
            r == self.spec_size(),
    {
        self.size
    }
}

/// The units written to the console for `c`: its UTF-16 units, `\n`
/// becoming `\r\n`
pub open spec fn chunk_units(c: char) -> Seq<u16> {
    if c == '\n' {
        seq![13u16, 10u16]
    } else {
        encode_char_utf16(c)
    }
}

/// The nul terminated string written to the console for `c`: its units,
/// padded with nuls to three
pub open spec fn console_chunk(c: char) -> Seq<u16> {
    if chunk_units(c).len() == 1 {
        chunk_units(c) + seq![0u16, 0u16]
    } else {
        chunk_units(c) + seq![0u16]
    }
}

/// All the units written to the console for `s`, in order
pub open spec fn console_units(s: Seq<char>) -> Seq<u16>
    decreases s.len(),
{
    if s.len() == 0 {
        Seq::empty()
    } else {
        chunk_units(s[0]) + console_units(s.drop_first())
    }
}

/// `u` with each line feed turned into a carriage return and a line feed
pub open spec fn lf_to_crlf(u: Seq<u16>) -> Seq<u16>
    decreases u.len(),
{
    if u.len() == 0 {
        Seq::empty()
    } else {
        (if u[0] == 10 {
            seq![13u16, 10u16]
        } else {
            seq![u[0]]
        }) + lf_to_crlf(u.drop_first())
    }
}

/// The nul terminated string written to the console for `c`: its UTF-16
/// units, `\n` becoming `\r\n`, padded with nuls to three
pub fn console_chunk_of(c: char) -> (r: [u16; 3])
    ensures
        r@ == console_chunk(c),
{
    let v: u32 = c as u32;
    let chunk: [u16; 3] = if c == '\n' {
        [13u16, 10u16, 0u16]
    } else if v < 0x10000 {
        [v as u16, 0u16, 0u16]
    } else {
        proof {
            vstd::utf8::char_is_scalar(c);
        }
        let w: u32 = v - 0x10000;
        [(0xD800 + w / 0x400) as u16, (0xDC00 + w % 0x400) as u16, 0u16]
    };
    assert(chunk@ =~= console_chunk(c));
    chunk
}

/// The console chunks a string is written as: one per character, in order,
/// each holding its UTF-16 units, `\n` becoming `\r\n`, and ending in nul
pub fn console_chunks(s: &str) -> (r: Vec<[u16; 3]>)
    ensures
        r@.len() == s@.len(),
        forall|i: int| 0 <= i < r@.len() ==> r@[i]@ == console_chunk(#[trigger] s@[i]),
{
    let n: usize = s.unicode_len();
    let mut out: Vec<[u16; 3]> = Vec::new();
    let mut i: usize = 0;
    while i < n
        invariant
            n == s@.len(),
            i <= n,
            out@.len() == i,
            forall|k: int| 0 <= k < i ==> out@[k]@ == console_chunk(#[trigger] s@[k]),
        decreases n - i,
    {
        out.push(console_chunk_of(s.get_char(i)));
        i = i + 1;
    }
    out
}

/// Turning line feeds into carriage return and line feed works piece by
/// piece
proof fn lemma_lf_to_crlf_append(a: Seq<u16>, b: Seq<u16>)
    ensures
        lf_to_crlf(a + b) == lf_to_crlf(a) + lf_to_crlf(b),
    decreases a.len(),
{
    if a.len() == 0 {
        assert(a + b =~= b);
    } else {
        assert((a + b).drop_first() =~= a.drop_first() + b);
        lemma_lf_to_crlf_append(a.drop_first(), b);
    }
}

/// What a string is written to the console as is its UTF-16 encoding,
/// each line feed turned into a carriage return and a line feed
pub proof fn lemma_console_units(s: Seq<char>)
    ensures
        console_units(s) == lf_to_crlf(encode_utf16(s)),
    decreases s.len(),
{
    if s.len() > 0 {
        let c = s[0];
        lemma_console_units(s.drop_first());
        lemma_lf_to_crlf_append(encode_char_utf16(c), encode_utf16(s.drop_first()));
        let u = encode_char_utf16(c);
        let v = c as u32;
        assert(lf_to_crlf(Seq::<u16>::empty()) =~= Seq::<u16>::empty());
        if v < 0x10000 {
            assert(u.drop_first() =~= Seq::<u16>::empty());
            if v == 10 {
                vstd::utf8::char_u32_cast(c, v);
                vstd::utf8::char_u32_cast('\n', 10);
                assert(c == '\n');
            }
            if c == '\n' {
                assert(('\n' as u32) == 10);
                assert(u[0] == 10);
            } else {
                assert(u[0] != 10);
            }
            assert(lf_to_crlf(u) == (if u[0] == 10 { seq![13u16, 10u16] } else { seq![u[0]] }) + lf_to_crlf(u.drop_first()));
        } else {
            vstd::utf8::char_is_scalar(c);
            let t = u.drop_first();
            assert(t =~= seq![u[1]]);
            assert(t.drop_first() =~= Seq::<u16>::empty());
            assert(u[0] != 10 && u[1] != 10);
            assert(lf_to_crlf(t) == seq![u[1]] + lf_to_crlf(t.drop_first()));
            assert(lf_to_crlf(u) == seq![u[0]] + lf_to_crlf(t));
        }
        assert(lf_to_crlf(u) =~= chunk_units(c));
    }
}

/// Whether writing to the console goes on after a chunk's result: it does
/// when the chunk was written, or only had an unknown glyph
pub fn write_continues(r: Result<()>) -> (b: bool)
    ensures
        b == (r is Ok || r->Err_0.spec_status() == EfiStatus::spec_warn_unknown_glyph()),
{
    match r {
        Ok(()) => true,
        Err(e) => e.status() == EfiStatus::warn_unknown_glyph(),
    }
}

/// An attribute value read back gives the colors it was made from
pub proof fn lemma_attribute_roundtrip(fore: TextForeground, back: TextBackground, attribute: i32)
    requires
        fore.0 < 16,
        back.0 < 16,
        attribute == attribute_value(fore, back),
    ensures
        attribute_fore(attribute) == fore.0,
        attribute_back(attribute) == back.0,
{
    assert((attribute as u8) as int == attribute);
}

impl Entity for SimpleTextOutput {
    open spec fn spec_guid() -> Seq<u8> {
        crate::proto::swap_fields(seq![0x38u8, 0x74, 0x77, 0xC2, 0x69, 0xC7, 0x11, 0xD2, 0x8E, 0x39, 0x00, 0xA0, 0xC9, 0x69, 0x72, 0x3B])
    }

    open spec fn spec_name() -> Seq<char> {
        "SimpleTextOutput"@
    }

    fn guid() -> (r: Guid) {
        Guid::from_bytes([0x38u8, 0x74, 0x77, 0xC2, 0x69, 0xC7, 0x11, 0xD2, 0x8E, 0x39, 0x00, 0xA0, 0xC9, 0x69, 0x72, 0x3B])
    }

    fn name() -> (r: &'static str) {
        "SimpleTextOutput"
    }
}

} // verus!
