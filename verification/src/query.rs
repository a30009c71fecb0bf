//! Decisions of the register query loop.
//!
//! After sending a query report the host reads device reports until one
//! answers the query or time runs out. The device also streams unsolicited
//! reports (such as the level meter on `0x2034`); those, and any report that
//! fails validation, are skipped. The caller performs the reads and keeps
//! the clock; this module decides what each read means.

use vstd::prelude::*;

use crate::error::Error;
use crate::packet::{
    command_header, lemma_command_report_parses_back, parse_response, report, response_fields,
    response_valid,
};

verus! {

/// What one read attempt of the query loop produced.
pub enum ReadOutcome {
    /// The deadline had passed before the read could start.
    TimeUp,
    /// The read returned no bytes before the deadline.
    Nothing,
    /// A 64-byte device report.
    Report([u8; 64]),
}

/// What the query loop does next.
#[derive(Debug)]
pub enum QueryStep {
    /// The query is answered with this register value.
    Answer(u16),
    /// The report is not the answer; read again.
    KeepReading,
    /// The query fails with this error.
    Fail(Error),
}

/// Whether `raw` answers a query of register `cmd`: it passes validation
/// and carries `cmd` as its command.
pub open spec fn answers(cmd: u16, raw: Seq<u8>) -> bool {
    response_valid(raw) && response_fields(raw).command == cmd
}

/// Decides the next step of a query of register `cmd` after `outcome`.
pub fn next_query_step(cmd: u16, outcome: &ReadOutcome) -> (step: QueryStep)
    ensures
        match outcome {
            ReadOutcome::TimeUp | ReadOutcome::Nothing => step matches QueryStep::Fail(e) && e is Timeout,
            ReadOutcome::Report(raw) => if answers(cmd, raw@) {
                step == QueryStep::Answer(response_fields(raw@).value)
            } else {
                step is KeepReading
            },
        },
{
    match outcome {
        ReadOutcome::TimeUp => QueryStep::Fail(Error::Timeout),
        ReadOutcome::Nothing => QueryStep::Fail(Error::Timeout),
        ReadOutcome::Report(raw) => match parse_response(raw) {
            Ok(resp) => {
                if resp.command == cmd {
                    QueryStep::Answer(resp.value)
                } else {
                    QueryStep::KeepReading
                }
            },
            Err(_) => QueryStep::KeepReading,
        },
    }
}


/// A device reply laid out like a command report for register `cmd` answers
/// a query of `cmd`, and the query yields the value it carries.
pub proof fn lemma_command_layout_answers_query(cmd: u16, value: u16)
    ensures
        ({
            let raw = report(command_header(), seq![cmd, value]).take(64);
            answers(cmd, raw) && response_fields(raw).value == value
        }),
{
    lemma_command_report_parses_back(cmd, value);
}


/// A report answers a query only if it is for the queried register: the word
/// at bytes 6..8 is `cmd`, byte 1 is `0xC4`, and the checksum at 10..12
/// cancels the bytes 1..10. So one report answers at most one register, and a
/// valid report for another register (such as the level meter) is skipped.
pub proof fn lemma_answer_is_for_queried_register(cmd: u16, other: u16, raw: Seq<u8>)
    requires
        raw.len() == 64,
    ensures
        answers(cmd, raw) ==> raw[6] + 256 * raw[7] == cmd,
        answers(cmd, raw) ==> raw[1] == 0xC4,
        answers(cmd, raw) <==> (response_valid(raw) && raw[6] + 256 * raw[7] == cmd),
        answers(cmd, raw) && answers(other, raw) ==> cmd == other,
        response_valid(raw) && raw[6] + 256 * raw[7] != cmd ==> !answers(cmd, raw),
{
}

} // verus!
