use n64_systemtest::sc64::{text_out_next, text_out_start, TextOutState, TextOutStep, DBG_PHYS, POLL_MAX};

#[test]
fn empty_text_sends_nothing() {
    assert_eq!(text_out_start(0), (TextOutState::Finished, TextOutStep::Done));
}

#[test]
fn text_is_copied_in_blocks_and_sent() {
    let len = 1000;
    let (s, step) = text_out_start(len);
    assert_eq!((s, step), (TextOutState::CheckIdle, TextOutStep::Command(0x55)));
    let (s, step) = text_out_next(s, len, Some(Ok([0, 0])));
    assert_eq!((s, step), (TextOutState::EnableWrites, TextOutStep::CommandWithArgs(0x43, 1, 1)));
    let (s, step) = text_out_next(s, len, Some(Ok([0, 7])));
    assert_eq!((s, step), (TextOutState::Copying(512, 7), TextOutStep::Copy(0, 512)));
    let (s, step) = text_out_next(s, len, None);
    assert_eq!((s, step), (TextOutState::Copying(1000, 7), TextOutStep::Copy(512, 488)));
    let (s, step) = text_out_next(s, len, None);
    assert_eq!((s, step), (TextOutState::RestoreWrites, TextOutStep::CommandWithArgs(0x43, 1, 7)));
    // a failure to restore the setting does not stop the sending
    let (s, step) = text_out_next(s, len, Some(Err(())));
    assert_eq!(DBG_PHYS, 0x1380_0000);
    assert_eq!((s, step), (TextOutState::Send, TextOutStep::CommandWithArgs(0x4D, 0x1380_0000, 0x0100_03E8)));
    let (s, step) = text_out_next(s, len, Some(Ok([0, 0])));
    assert_eq!((s, step), (TextOutState::Poll(1), TextOutStep::Command(0x55)));
    let (s, step) = text_out_next(s, len, Some(Ok([0x8000_0000, 0])));
    assert_eq!((s, step), (TextOutState::Poll(2), TextOutStep::Command(0x55)));
    let (s, step) = text_out_next(s, len, Some(Ok([0, 0])));
    assert_eq!((s, step), (TextOutState::Finished, TextOutStep::Done));
}

#[test]
fn busy_usb_or_failed_commands_end_the_sending() {
    assert_eq!(
        text_out_next(TextOutState::CheckIdle, 5, Some(Ok([0x8000_0000, 0]))),
        (TextOutState::Finished, TextOutStep::Done)
    );
    assert_eq!(text_out_next(TextOutState::CheckIdle, 5, Some(Err(()))), (TextOutState::Finished, TextOutStep::Done));
    assert_eq!(text_out_next(TextOutState::EnableWrites, 5, Some(Err(()))), (TextOutState::Finished, TextOutStep::Done));
    assert_eq!(text_out_next(TextOutState::Send, 5, Some(Err(()))), (TextOutState::Finished, TextOutStep::Done));
    assert_eq!(
        text_out_next(TextOutState::EnableWrites, 5, Some(Ok([0, 0]))),
        (TextOutState::Copying(5, 0), TextOutStep::Copy(0, 5))
    );
}

#[test]
fn polling_gives_up_after_the_limit() {
    assert_eq!(
        text_out_next(TextOutState::Poll(POLL_MAX), 5, Some(Ok([0x8000_0000, 0]))),
        (TextOutState::Finished, TextOutStep::Done)
    );
    assert_eq!(
        text_out_next(TextOutState::Poll(POLL_MAX - 1), 5, Some(Err(()))),
        (TextOutState::Poll(POLL_MAX), TextOutStep::Command(0x55))
    );
}

#[test]
fn whole_run_ends_within_the_bound() {
    // A USB write that never finishes: the sending still ends.
    let len = 2000usize;
    let (mut s, mut step) = text_out_start(len);
    let mut steps = 0u64;
    let mut copied = 0usize;
    while step != TextOutStep::Done {
        let result = match step {
            TextOutStep::Copy(off, n) => {
                assert_eq!(off, copied);
                copied += n;
                None
            }
            TextOutStep::Command(0x55) if s != TextOutState::CheckIdle => Some(Ok([0x8000_0000, 0])),
            _ => Some(Ok([0, 0])),
        };
        (s, step) = text_out_next(s, len, result);
        steps += 1;
    }
    assert_eq!(copied, len);
    assert!(steps <= POLL_MAX as u64 + 5 + len as u64);
}
