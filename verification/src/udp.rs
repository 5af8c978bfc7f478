//! The network consumer: which readings go out as datagrams, and their
//! text.

use crate::sensor_reading::PlantowerFrame;
use crate::text_line::decimal;
use crate::text_line::lemma_decimal_u16;
use crate::text_line::TextLine;
use vstd::prelude::*;

verus! {

/// Local port that the node sends from.
pub const LOCAL_PORT: u16 = 12345;

/// Pause after each handled reading, in milliseconds.
pub const SEND_PAUSE_MS: u64 = 50;

/// Longest text that `datagram_line` produces.
pub const DATAGRAM_TEXT_MAX: usize = 47;

/// The payload that reports `frame`: one line with its two headline
/// concentrations and its smallest particle count as decimal numerals.
pub open spec fn datagram_text(frame: PlantowerFrame) -> Seq<char> {
    "PM2.5: "@ + decimal(frame.pm2_5_atm as nat) + " | PM10: "@ + decimal(frame.pm10_atm as nat)
        + " | Counts_0.3: "@ + decimal(frame.counts_0_3 as nat) + "\n"@
}

/// Renders the payload that reports `frame`.
pub fn datagram_line(frame: &PlantowerFrame) -> (line: TextLine)
    ensures
        line@ == datagram_text(*frame),
        line@.len() <= DATAGRAM_TEXT_MAX,
{
    proof {
        reveal_strlit("PM2.5: ");
        reveal_strlit(" | PM10: ");
        reveal_strlit(" | Counts_0.3: ");
        reveal_strlit("\n");
        lemma_decimal_u16(frame.pm2_5_atm);
        lemma_decimal_u16(frame.pm10_atm);
        lemma_decimal_u16(frame.counts_0_3);
    }
    let mut line = TextLine::new();
    line.push_text("PM2.5: ");
    line.push_decimal(frame.pm2_5_atm);
    line.push_text(" | PM10: ");
    line.push_decimal(frame.pm10_atm);
    line.push_text(" | Counts_0.3: ");
    line.push_decimal(frame.counts_0_3);
    line.push_text("\n");
    line
}

/// What the network task sends for a reading it took from the bus: the
/// reading's payload while the link is up, nothing while it is down. A
/// reading that meets a link that is down is not kept for later.
pub fn outgoing(link_up: bool, frame: &PlantowerFrame) -> (datagram: Option<TextLine>)
    ensures
        link_up ==> (datagram matches Some(line) && line@ == datagram_text(*frame)),
        !link_up ==> datagram is None,
{
    if link_up {
        Some(datagram_line(frame))
    } else {
        None
    }
}

} // verus!
