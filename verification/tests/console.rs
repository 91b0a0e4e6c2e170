use nuefi::error::{EfiStatus, UefiError};
use nuefi::proto::console::{
    console_chunk_of, console_chunks, write_continues, AttributeScope, RawSimpleTextOutput, RawTextMode, ScopeAction, ScopeEvent,
    ScopeMachine, ScopePhase, SimpleTextOutput, TextBackground, TextForeground,
};

fn console(attribute: i32, max_mode: i32, output: Option<usize>) -> SimpleTextOutput {
    SimpleTextOutput {
        raw: RawSimpleTextOutput {
            reset: None,
            output_string: output,
            test_string: None,
            query_mode: None,
            set_mode: None,
            set_attribute: None,
            clear_screen: None,
            set_cursor_position: None,
            enable_cursor: None,
            mode: 0x1000,
        },
        mode: RawTextMode {
            max_mode,
            mode: 1,
            attribute,
            cursor_column: 0,
            cursor_row: 0,
            cursor_visible: true,
        },
    }
}

#[test]
fn attribute_value_packs_colors() {
    assert_eq!(SimpleTextOutput::set_attributes(TextForeground::yellow(), TextBackground::blue()), 0x1E);
    assert_eq!(SimpleTextOutput::set_attributes(TextForeground::light_gray(), TextBackground::black()), 0x07);
}

#[test]
fn attributes_read_back() {
    let out = console(0x1E, 3, None);
    assert_eq!(out.attributes(), (TextForeground::yellow(), TextBackground::blue()));
}

#[test]
fn scoped_colors_restore_current() {
    let out = console(0x07, 3, None);
    let scope = out.with_attributes(TextForeground::red(), TextBackground::green());
    assert_eq!(scope, AttributeScope { set: 0x24, restore: 0x07 });
    assert_eq!(out.with_foreground(TextForeground::white()), AttributeScope { set: 0x0F, restore: 0x07 });
    assert_eq!(out.with_background(TextBackground::red()), AttributeScope { set: 0x47, restore: 0x07 });
    assert_eq!(out.set_background(TextBackground::cyan()), 0x37);
}

#[test]
fn scope_runs_closure_after_successful_set() {
    let mut m = ScopeMachine::new(AttributeScope { set: 0x24, restore: 0x07 });
    assert_eq!(m.phase(), ScopePhase::Start);
    assert!(m.accepts(&ScopeEvent::Begin));
    assert!(!m.accepts(&ScopeEvent::ClosureReturned));
    assert!(matches!(m.step(ScopeEvent::Begin), ScopeAction::SetAttribute(0x24)));
    assert!(matches!(m.step(ScopeEvent::SetAnswered(Ok(()))), ScopeAction::RunClosure));
    assert!(matches!(m.step(ScopeEvent::ClosureReturned), ScopeAction::RestoreAttribute(0x07)));
    let e = UefiError::new(EfiStatus::device_error());
    match m.step(ScopeEvent::RestoreAnswered(Err(e))) {
        ScopeAction::Finish(r) => assert_eq!(r, Err(e)),
        _ => panic!("expected the end"),
    }
    assert_eq!(m.phase(), ScopePhase::Done);
}

#[test]
fn scope_failed_set_skips_closure() {
    let mut m = ScopeMachine::new(AttributeScope { set: 0x24, restore: 0x07 });
    m.step(ScopeEvent::Begin);
    let e = UefiError::new(EfiStatus::unsupported());
    match m.step(ScopeEvent::SetAnswered(Err(e))) {
        ScopeAction::Finish(r) => assert_eq!(r, Err(e)),
        _ => panic!("expected the end"),
    }
    assert_eq!(m.phase(), ScopePhase::Done);
    assert!(!m.accepts(&ScopeEvent::ClosureReturned));
}

#[test]
fn text_query_mode_answers() {
    let m = SimpleTextOutput::query_mode(2, EfiStatus::success(), 80, 25).unwrap();
    assert_eq!(m.mode(), 2);
    assert_eq!(m.size(), (80, 25));
    let e = SimpleTextOutput::query_mode(2, EfiStatus::unsupported(), 0, 0);
    assert_eq!(e.unwrap_err(), UefiError::new(EfiStatus::unsupported()));
}

#[test]
fn modes_below_count() {
    assert_eq!(console(0, 3, None).modes(), vec![0, 1, 2]);
    assert_eq!(console(0, 0, None).modes(), Vec::<u32>::new());
    assert_eq!(console(0, 3, None).mode(), 1);
}

#[test]
fn output_string_entry() {
    assert_eq!(console(0, 1, Some(0x55)).output_string(), Ok(0x55));
    assert_eq!(
        console(0, 1, None).output_string(),
        Err(UefiError::new(EfiStatus::unsupported()))
    );
}

#[test]
fn chunks_are_utf16_per_character() {
    assert_eq!(console_chunks("\u{e9}\u{1F600}"), vec![[0xE9, 0, 0], [0xD83D, 0xDE00, 0]]);
    let s = "caf\u{e9}\n\u{1F600}!\n";
    let sent: Vec<u16> = console_chunks(s).iter().flat_map(|c| c.iter().copied().take_while(|u| *u != 0)).collect();
    let expected: Vec<u16> = s.encode_utf16().flat_map(|u| if u == 10 { vec![13, 10] } else { vec![u] }).collect();
    assert_eq!(sent, expected);
}

#[test]
fn chunks_turn_newline_into_crlf() {
    assert_eq!(console_chunks("a\nb"), vec![[0x61, 0, 0], [13, 10, 0], [0x62, 0, 0]]);
    assert_eq!(console_chunks(""), Vec::<[u16; 3]>::new());
}

#[test]
fn writing_goes_on_past_unknown_glyphs() {
    assert!(write_continues(Ok(())));
    assert!(write_continues(Err(UefiError::new_status(EfiStatus::warn_unknown_glyph()))));
    assert!(!write_continues(Err(UefiError::new(EfiStatus::device_error()))));
}

#[test]
fn mock_output_protocol() {
    let m = RawSimpleTextOutput::mock(1, 2, 3);
    assert_eq!(m.reset, Some(1));
    assert_eq!(m.output_string, Some(2));
    assert_eq!(m.clear_screen, Some(3));
    assert_eq!(m.set_attribute, None);
    assert_eq!(m.mode, 0);
}

#[test]
fn one_chunk_per_character() {
    assert_eq!(console_chunk_of('a'), [0x61, 0, 0]);
    assert_eq!(console_chunk_of('\n'), [13, 10, 0]);
    assert_eq!(console_chunk_of('\u{e9}'), [0xE9, 0, 0]);
    assert_eq!(console_chunk_of('\u{10000}'), [0xD800, 0xDC00, 0]);
}
