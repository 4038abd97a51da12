use plain_clipboard::rewriter::{CF_UNICODETEXT, GMEM_MOVEABLE};
use plain_clipboard::{Action, Error, Phase, Reply, Rewriter};

fn units(text: &str) -> Vec<u16> {
    text.encode_utf16().collect()
}

fn buffer_of(text: &str) -> Vec<u16> {
    let mut buffer = units(text);
    buffer.push(0);
    buffer
}

/// Steps a fresh machine up to the point where it has read `text` and asked
/// for the clipboard to be emptied.
fn machine_that_read(text: &str) -> Rewriter {
    let mut machine = Rewriter::new();
    assert_eq!(machine.step(Reply::Done), Action::OpenSession);
    assert_eq!(machine.step(Reply::Status(1)), Action::Fetch { format: 13 });
    assert_eq!(machine.step(Reply::Handle(0x40)), Action::LockSource { source: 0x40 });
    assert_eq!(
        machine.step(Reply::Contents(Some(buffer_of(text)))),
        Action::UnlockSource { source: 0x40 }
    );
    assert_eq!(machine.step(Reply::Done), Action::ClearContents);
    machine
}

/// Steps a fresh machine up to the point where it has asked for its buffer of
/// handle `0x80` to be filled with `text`.
fn machine_that_filled(text: &str) -> Rewriter {
    let mut machine = machine_that_read(text);
    let bytes = 2 * (units(text).len() + 1);
    assert_eq!(machine.step(Reply::Status(1)), Action::Allocate { flags: 2, bytes });
    assert_eq!(
        machine.step(Reply::Handle(0x80)),
        Action::FillTarget { target: 0x80, units: buffer_of(text) }
    );
    machine
}

#[test]
fn constants_are_the_system_values() {
    assert_eq!(CF_UNICODETEXT, 13);
    assert_eq!(GMEM_MOVEABLE, 0x0002);
}

#[test]
fn successful_rewrite_step_by_step() {
    let mut machine = Rewriter::new();
    assert_eq!(machine.phase(), Phase::Start);
    assert_eq!(machine.step(Reply::Done), Action::OpenSession);
    assert_eq!(machine.phase(), Phase::Opening);
    assert_eq!(machine.step(Reply::Status(1)), Action::Fetch { format: CF_UNICODETEXT });
    assert_eq!(machine.step(Reply::Handle(7)), Action::LockSource { source: 7 });
    let mut buffer = units("abc");
    buffer.push(0);
    buffer.extend(units("stale"));
    assert_eq!(machine.step(Reply::Contents(Some(buffer))), Action::UnlockSource { source: 7 });
    assert_eq!(machine.step(Reply::Done), Action::ClearContents);
    assert_eq!(
        machine.step(Reply::Status(1)),
        Action::Allocate { flags: GMEM_MOVEABLE, bytes: 8 }
    );
    assert_eq!(
        machine.step(Reply::Handle(9)),
        Action::FillTarget { target: 9, units: vec![0x61, 0x62, 0x63, 0] }
    );
    assert_eq!(machine.step(Reply::Status(1)), Action::UnlockTarget { target: 9 });
    assert_eq!(
        machine.step(Reply::Done),
        Action::Install { format: CF_UNICODETEXT, target: 9 }
    );
    assert_eq!(machine.step(Reply::Handle(9)), Action::CloseSession);
    assert!(!machine.is_finished());
    assert_eq!(machine.step(Reply::Done), Action::Finish(Ok(())));
    assert!(machine.is_finished());
    assert_eq!(machine.phase(), Phase::Finished);
}

#[test]
fn any_nonzero_status_counts_as_success() {
    let mut machine = Rewriter::new();
    machine.step(Reply::Done);
    assert_eq!(machine.step(Reply::Status(-1)), Action::Fetch { format: 13 });
}

#[test]
fn refused_open_finishes_without_close() {
    let mut machine = Rewriter::new();
    assert_eq!(machine.step(Reply::Done), Action::OpenSession);
    assert_eq!(
        machine.step(Reply::Status(0)),
        Action::Finish(Err(Error::ClipboardUnavailable))
    );
    assert!(machine.is_finished());
}

#[test]
fn missing_text_closes_the_session() {
    let mut machine = Rewriter::new();
    machine.step(Reply::Done);
    machine.step(Reply::Status(1));
    assert_eq!(machine.step(Reply::Handle(0)), Action::CloseSession);
    assert_eq!(machine.step(Reply::Done), Action::Finish(Err(Error::NoTextContent)));
}

#[test]
fn refused_source_lock_closes_the_session() {
    let mut machine = Rewriter::new();
    machine.step(Reply::Done);
    machine.step(Reply::Status(1));
    machine.step(Reply::Handle(3));
    assert_eq!(machine.step(Reply::Contents(None)), Action::CloseSession);
    assert_eq!(machine.step(Reply::Done), Action::Finish(Err(Error::LockFailure)));
}

#[test]
fn refused_clear_allocates_nothing() {
    let mut machine = machine_that_read("text");
    assert_eq!(machine.step(Reply::Status(0)), Action::CloseSession);
    assert_eq!(machine.step(Reply::Done), Action::Finish(Err(Error::ClearFailure)));
}

#[test]
fn refused_allocation_closes_the_session() {
    let mut machine = machine_that_read("text");
    assert_eq!(machine.step(Reply::Status(1)), Action::Allocate { flags: 2, bytes: 10 });
    assert_eq!(machine.step(Reply::Handle(0)), Action::CloseSession);
    assert_eq!(machine.step(Reply::Done), Action::Finish(Err(Error::AllocationFailure)));
}

#[test]
fn refused_target_lock_frees_the_buffer() {
    let mut machine = machine_that_filled("text");
    assert_eq!(machine.step(Reply::Status(0)), Action::Release { target: 0x80 });
    assert_eq!(machine.step(Reply::Done), Action::CloseSession);
    assert_eq!(machine.step(Reply::Done), Action::Finish(Err(Error::LockFailure)));
}

#[test]
fn refused_install_frees_the_buffer() {
    let mut machine = machine_that_filled("text");
    assert_eq!(machine.step(Reply::Status(1)), Action::UnlockTarget { target: 0x80 });
    assert_eq!(machine.step(Reply::Done), Action::Install { format: 13, target: 0x80 });
    assert_eq!(machine.step(Reply::Handle(0)), Action::Release { target: 0x80 });
    assert_eq!(machine.step(Reply::Done), Action::CloseSession);
    assert_eq!(machine.step(Reply::Done), Action::Finish(Err(Error::SetFailure)));
}

#[test]
fn empty_text_is_written_as_a_lone_terminator() {
    let mut machine = machine_that_read("");
    assert_eq!(machine.step(Reply::Status(1)), Action::Allocate { flags: 2, bytes: 2 });
    assert_eq!(
        machine.step(Reply::Handle(5)),
        Action::FillTarget { target: 5, units: vec![0] }
    );
}

#[test]
fn answer_of_the_wrong_kind_counts_as_failure() {
    let mut machine = Rewriter::new();
    machine.step(Reply::Done);
    assert_eq!(
        machine.step(Reply::Handle(1)),
        Action::Finish(Err(Error::ClipboardUnavailable))
    );

    let mut machine = Rewriter::new();
    machine.step(Reply::Done);
    machine.step(Reply::Status(1));
    assert_eq!(machine.step(Reply::Status(1)), Action::CloseSession);
    assert_eq!(machine.step(Reply::Done), Action::Finish(Err(Error::NoTextContent)));
}

#[test]
fn finished_machine_repeats_its_result() {
    let mut machine = Rewriter::new();
    machine.step(Reply::Done);
    machine.step(Reply::Status(0));
    assert_eq!(
        machine.step(Reply::Status(1)),
        Action::Finish(Err(Error::ClipboardUnavailable))
    );
    assert_eq!(
        machine.step(Reply::Done),
        Action::Finish(Err(Error::ClipboardUnavailable))
    );
}

#[test]
fn every_rewrite_ends_within_thirteen_steps() {
    let answers = [
        Reply::Done,
        Reply::Status(0),
        Reply::Status(1),
        Reply::Handle(0),
        Reply::Handle(4),
        Reply::Contents(None),
        Reply::Contents(Some(vec![0x78, 0])),
    ];
    for answer in answers.iter() {
        let mut machine = Rewriter::new();
        let mut steps = 0;
        while !machine.is_finished() {
            machine.step(answer.clone());
            steps += 1;
            assert!(steps <= 13);
        }
    }
}
