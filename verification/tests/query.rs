use pd200x::{build_command_packet, checksum, next_query_step, Error, QueryStep, ReadOutcome};

fn reply(cmd: u16, value: u16) -> [u8; 64] {
    let p = build_command_packet(cmd, value);
    let mut raw = [0u8; 64];
    raw.copy_from_slice(&p[..64]);
    raw
}

#[test]
fn timeouts_fail() {
    assert!(matches!(next_query_step(0x2023, &ReadOutcome::TimeUp), QueryStep::Fail(Error::Timeout)));
    assert!(matches!(next_query_step(0x2023, &ReadOutcome::Nothing), QueryStep::Fail(Error::Timeout)));
}

#[test]
fn matching_reply_answers() {
    let step = next_query_step(0x2023, &ReadOutcome::Report(reply(0x2023, 64)));
    assert!(matches!(step, QueryStep::Answer(64)));
}

#[test]
fn unsolicited_and_invalid_reports_are_skipped() {
    // level-meter stream
    let step = next_query_step(0x2023, &ReadOutcome::Report(reply(0x2034, 7)));
    assert!(matches!(step, QueryStep::KeepReading));
    let mut bad = reply(0x2023, 64);
    bad[11] ^= 0x10;
    assert!(matches!(next_query_step(0x2023, &ReadOutcome::Report(bad)), QueryStep::KeepReading));
    let mut no_magic = reply(0x2023, 64);
    no_magic[1] = 0;
    let cs = checksum(&no_magic, 10);
    no_magic[10..12].copy_from_slice(&cs.to_le_bytes());
    assert!(matches!(next_query_step(0x2023, &ReadOutcome::Report(no_magic)), QueryStep::KeepReading));
}
