//! Formatting of one accepted record as one log line, byte for byte.
//!
//! One line per record:
//! `[<DIRECTION>] PID: <pid> Comm: <name> Size: <len> bytes | Latency: <duration_ns> ns`
//! with a distinct tag for an accepted connection and a distinct tail for a
//! retransmit, which reports no size and no latency.

use vstd::prelude::*;
use vstd::array::array_as_slice;
use crate::event::{TcpEvent, TrafficDirection};
use crate::filter::{spec_trimmed, trim_comm};

verus! {

/// The decimal digit for one value below ten.
pub open spec fn digit_byte(d: int) -> u8
    recommends
        0 <= d < 10,
{
    ('0' as u8 + d) as u8
}

/// The decimal numeral of a number, most significant digit first, no
/// leading zeros (a single zero digit for zero).
pub open spec fn spec_dec(n: nat) -> Seq<u8>
    decreases n,
{
    if n < 10 {
        seq![digit_byte(n as int)]
    } else {
        spec_dec(n / 10).push(digit_byte((n % 10) as int))
    }
}

/// The tag opening a line, direction by direction.
pub open spec fn spec_tag(d: TrafficDirection) -> Seq<u8> {
    match d {
        TrafficDirection::Ingress => seq![
            '[' as u8,
            'R' as u8,
            'E' as u8,
            'C' as u8,
            'V' as u8,
            ']' as u8,
        ],
        TrafficDirection::Egress => seq![
            '[' as u8,
            'S' as u8,
            'E' as u8,
            'N' as u8,
            'D' as u8,
            ']' as u8,
        ],
        TrafficDirection::Accept => seq![
            '[' as u8,
            'N' as u8,
            'E' as u8,
            'W' as u8,
            ' ' as u8,
            'C' as u8,
            'O' as u8,
            'N' as u8,
            'N' as u8,
            ']' as u8,
        ],
        TrafficDirection::Retransmit => seq![
            '[' as u8,
            'R' as u8,
            'E' as u8,
            'T' as u8,
            'R' as u8,
            'A' as u8,
            'N' as u8,
            'S' as u8,
            'M' as u8,
            'I' as u8,
            'T' as u8,
            ']' as u8,
        ],
    }
}

/// The literal between the tag and the thread identifier.
pub open spec fn lit_pid() -> Seq<u8> {
    seq![' ' as u8, 'P' as u8, 'I' as u8, 'D' as u8, ':' as u8, ' ' as u8]
}

/// The literal before the process name.
pub open spec fn lit_comm() -> Seq<u8> {
    seq![' ' as u8, 'C' as u8, 'o' as u8, 'm' as u8, 'm' as u8, ':' as u8, ' ' as u8]
}

/// The literal before the byte count.
pub open spec fn lit_size() -> Seq<u8> {
    seq![' ' as u8, 'S' as u8, 'i' as u8, 'z' as u8, 'e' as u8, ':' as u8, ' ' as u8]
}

/// The literal between the byte count and the latency.
pub open spec fn lit_latency() -> Seq<u8> {
    seq![
        ' ' as u8,
        'b' as u8,
        'y' as u8,
        't' as u8,
        'e' as u8,
        's' as u8,
        ' ' as u8,
        '|' as u8,
        ' ' as u8,
        'L' as u8,
        'a' as u8,
        't' as u8,
        'e' as u8,
        'n' as u8,
        'c' as u8,
        'y' as u8,
        ':' as u8,
        ' ' as u8,
    ]
}

/// The literal closing a timed line.
pub open spec fn lit_ns() -> Seq<u8> {
    seq![' ' as u8, 'n' as u8, 's' as u8]
}

/// The literal closing a retransmit line.
pub open spec fn lit_lost() -> Seq<u8> {
    seq![
        ' ' as u8,
        '|' as u8,
        ' ' as u8,
        'P' as u8,
        'a' as u8,
        'c' as u8,
        'k' as u8,
        'e' as u8,
        't' as u8,
        ' ' as u8,
        'L' as u8,
        'o' as u8,
        's' as u8,
        't' as u8,
        '!' as u8,
    ]
}

/// The whole log line of a record: tag, thread identifier, trimmed name,
/// then size and latency, except that a retransmit reports a loss instead.
pub open spec fn spec_line(ev: TcpEvent) -> Seq<u8> {
    let head = spec_tag(ev.direction) + lit_pid() + spec_dec(ev.pid as nat) + lit_comm()
        + spec_trimmed(ev.comm@);
    if ev.direction == TrafficDirection::Retransmit {
        head + lit_lost()
    } else {
        head + lit_size() + spec_dec(ev.len as nat) + lit_latency() + spec_dec(
            ev.duration_ns as nat,
        ) + lit_ns()
    }
}

/// Appends the decimal numeral of a number.
pub fn push_dec(line: &mut Vec<u8>, n: u64)
    ensures
        final(line)@ == old(line)@ + spec_dec(n as nat),
    decreases n,
{
    if n < 10 {
        line.push('0' as u8 + (n as u8));
        proof {
            assert(final(line)@ =~= old(line)@ + spec_dec(n as nat));
        }
    } else {
        push_dec(line, n / 10);
        line.push('0' as u8 + ((n % 10) as u8));
        proof {
            assert(final(line)@ =~= old(line)@ + spec_dec(n as nat));
        }
    }
}

/// Appends the bytes of a slice.
fn push_bytes(line: &mut Vec<u8>, bytes: &[u8])
    ensures
        final(line)@ == old(line)@ + bytes@,
{
    let mut i: usize = 0;
    while i < bytes.len()
        invariant
            i <= bytes@.len(),
            line@ == old(line)@ + bytes@.take(i as int),
        decreases bytes@.len() - i,
    {
        line.push(*vstd::slice::slice_index_get(bytes, i));
        proof {
            assert(old(line)@ + bytes@.take(i + 1 as int) =~= (old(line)@ + bytes@.take(
                i as int,
            )).push(bytes@[i as int]));
        }
        i = i + 1;
    }
    proof {
        assert(old(line)@ + bytes@.take(bytes@.len() as int) =~= old(line)@ + bytes@);
    }
}

/// Appends the tag of a direction.
fn push_tag(line: &mut Vec<u8>, d: TrafficDirection)
    ensures
        final(line)@ == old(line)@ + spec_tag(d),
{
    match d {
        TrafficDirection::Ingress => {
            line.push('[' as u8);
            line.push('R' as u8);
            line.push('E' as u8);
            line.push('C' as u8);
            line.push('V' as u8);
            line.push(']' as u8);
        },
        TrafficDirection::Egress => {
            line.push('[' as u8);
            line.push('S' as u8);
            line.push('E' as u8);
            line.push('N' as u8);
            line.push('D' as u8);
            line.push(']' as u8);
        },
        TrafficDirection::Accept => {
            line.push('[' as u8);
            line.push('N' as u8);
            line.push('E' as u8);
            line.push('W' as u8);
            line.push(' ' as u8);
            line.push('C' as u8);
            line.push('O' as u8);
            line.push('N' as u8);
            line.push('N' as u8);
            line.push(']' as u8);
        },
        TrafficDirection::Retransmit => {
            line.push('[' as u8);
            line.push('R' as u8);
            line.push('E' as u8);
            line.push('T' as u8);
            line.push('R' as u8);
            line.push('A' as u8);
            line.push('N' as u8);
            line.push('S' as u8);
            line.push('M' as u8);
            line.push('I' as u8);
            line.push('T' as u8);
            line.push(']' as u8);
        },
    }
    proof {
        assert(final(line)@ =~= old(line)@ + spec_tag(d));
    }
}

/// Appends the literal between the tag and the thread identifier.
fn push_lit_pid(line: &mut Vec<u8>)
    ensures
        final(line)@ == old(line)@ + lit_pid(),
{
    line.push(' ' as u8);
    line.push('P' as u8);
    line.push('I' as u8);
    line.push('D' as u8);
    line.push(':' as u8);
    line.push(' ' as u8);
    proof {
        assert(final(line)@ =~= old(line)@ + lit_pid());
    }
}

/// Appends the literal before the process name.
fn push_lit_comm(line: &mut Vec<u8>)
    ensures
        final(line)@ == old(line)@ + lit_comm(),
{
    line.push(' ' as u8);
    line.push('C' as u8);
    line.push('o' as u8);
    line.push('m' as u8);
    line.push('m' as u8);
    line.push(':' as u8);
    line.push(' ' as u8);
    proof {
        assert(final(line)@ =~= old(line)@ + lit_comm());
    }
}

/// Appends the literal before the byte count.
fn push_lit_size(line: &mut Vec<u8>)
    ensures
        final(line)@ == old(line)@ + lit_size(),
{
    line.push(' ' as u8);
    line.push('S' as u8);
    line.push('i' as u8);
    line.push('z' as u8);
    line.push('e' as u8);
    line.push(':' as u8);
    line.push(' ' as u8);
    proof {
        assert(final(line)@ =~= old(line)@ + lit_size());
    }
}

/// Appends the literal between the byte count and the latency.
fn push_lit_latency(line: &mut Vec<u8>)
    ensures
        final(line)@ == old(line)@ + lit_latency(),
{
    line.push(' ' as u8);
    line.push('b' as u8);
    line.push('y' as u8);
    line.push('t' as u8);
    line.push('e' as u8);
    line.push('s' as u8);
    line.push(' ' as u8);
    line.push('|' as u8);
    line.push(' ' as u8);
    line.push('L' as u8);
    line.push('a' as u8);
    line.push('t' as u8);
    line.push('e' as u8);
    line.push('n' as u8);
    line.push('c' as u8);
    line.push('y' as u8);
    line.push(':' as u8);
    line.push(' ' as u8);
    proof {
        assert(final(line)@ =~= old(line)@ + lit_latency());
    }
}

/// Appends the literal closing a timed line.
fn push_lit_ns(line: &mut Vec<u8>)
    ensures
        final(line)@ == old(line)@ + lit_ns(),
{
    line.push(' ' as u8);
    line.push('n' as u8);
    line.push('s' as u8);
    proof {
        assert(final(line)@ =~= old(line)@ + lit_ns());
    }
}

/// Appends the literal closing a retransmit line.
fn push_lit_lost(line: &mut Vec<u8>)
    ensures
        final(line)@ == old(line)@ + lit_lost(),
{
    line.push(' ' as u8);
    line.push('|' as u8);
    line.push(' ' as u8);
    line.push('P' as u8);
    line.push('a' as u8);
    line.push('c' as u8);
    line.push('k' as u8);
    line.push('e' as u8);
    line.push('t' as u8);
    line.push(' ' as u8);
    line.push('L' as u8);
    line.push('o' as u8);
    line.push('s' as u8);
    line.push('t' as u8);
    line.push('!' as u8);
    proof {
        assert(final(line)@ =~= old(line)@ + lit_lost());
    }
}

/// Formats one record as its log line.
pub fn format_event(ev: &TcpEvent) -> (line: Vec<u8>)
    ensures
        line@ == spec_line(*ev),
{
    let mut line: Vec<u8> = Vec::new();
    push_tag(&mut line, ev.direction);
    push_lit_pid(&mut line);
    push_dec(&mut line, ev.pid as u64);
    push_lit_comm(&mut line);
    let name = trim_comm(array_as_slice(&ev.comm));
    push_bytes(&mut line, name.as_slice());
    match ev.direction {
        TrafficDirection::Retransmit => {
            push_lit_lost(&mut line);
        },
        _ => {
            push_lit_size(&mut line);
            push_dec(&mut line, ev.len as u64);
            push_lit_latency(&mut line);
            push_dec(&mut line, ev.duration_ns);
            push_lit_ns(&mut line);
        },
    }
    proof {
        assert(line@ =~= spec_line(*ev));
    }
    line
}

} // verus!
