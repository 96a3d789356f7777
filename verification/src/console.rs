//! The serial console: one-letter commands, with white space around them ignored.

use vstd::prelude::*;
use vstd::slice::slice_subrange;

verus! {

/// The letter that asks for the bootloader.
pub const LETTER_RESET: u8 = 0x72;

/// The letter that asks for a test panic.
pub const LETTER_PANIC: u8 = 0x70;

/// What a message on the console asks for.
#[derive(Clone, Copy, Debug, PartialEq, Eq, Structural)]
pub enum Command {
    /// Reset into the bootloader.
    ResetIntoDfu,
    /// Panic, to see the panic handler at work.
    TestPanic,
    /// Nothing.
    Nop,
}

/// The white space of ASCII: space, tab, line feed, form feed, carriage return.
pub open spec fn is_white(byte: u8) -> bool {
    byte == 0x20 || byte == 0x09 || byte == 0x0A || byte == 0x0C || byte == 0x0D
}

/// Every byte is white space.
pub open spec fn all_white(data: Seq<u8>) -> bool {
    forall|i: int| 0 <= i < data.len() ==> is_white(#[trigger] data[i])
}

/// `data` without the white space at its start.
pub open spec fn trimmed_start(data: Seq<u8>) -> Seq<u8>
    decreases data.len(),
{
    if data.len() > 0 && is_white(data[0]) {
        trimmed_start(data.skip(1))
    } else {
        data
    }
}

/// `data` without the white space at its end.
pub open spec fn trimmed_end(data: Seq<u8>) -> Seq<u8>
    decreases data.len(),
{
    if data.len() > 0 && is_white(data.last()) {
        trimmed_end(data.drop_last())
    } else {
        data
    }
}

/// `data` without the white space at either end.
pub open spec fn trimmed(data: Seq<u8>) -> Seq<u8> {
    trimmed_end(trimmed_start(data))
}

/// The command that a message gives.
pub open spec fn command_of(data: Seq<u8>) -> Command {
    if trimmed(data) == seq![LETTER_RESET] {
        Command::ResetIntoDfu
    } else if trimmed(data) == seq![LETTER_PANIC] {
        Command::TestPanic
    } else {
        Command::Nop
    }
}

fn white(byte: u8) -> (res: bool)
    ensures
        res == is_white(byte),
{
    byte == 0x20 || byte == 0x09 || byte == 0x0A || byte == 0x0C || byte == 0x0D
}

/// The part of `data` that is left when the white space at both ends is taken away.
pub fn trim_ascii(data: &[u8]) -> (res: &[u8])
    ensures
        res@ == trimmed(data@),
{
    let mut start: usize = 0;
    assert(data@.skip(0) =~= data@);
    while start < data.len() && white(data[start])
        invariant
            start <= data@.len(),
            trimmed_start(data@) == trimmed_start(data@.skip(start as int)),
        decreases data@.len() - start,
    {
        assert(data@.skip(start as int).skip(1) =~= data@.skip(start + 1));
        start = start + 1;
    }
    assert(trimmed_start(data@) == data@.skip(start as int));
    let mut end: usize = data.len();
    assert(data@.subrange(start as int, end as int) =~= data@.skip(start as int));
    while end > start && white(data[end - 1])
        invariant
            start <= end <= data@.len(),
            trimmed(data@) == trimmed_end(data@.subrange(start as int, end as int)),
        decreases end,
    {
        assert(data@.subrange(start as int, end as int).drop_last() =~= data@.subrange(
            start as int,
            end - 1,
        ));
        end = end - 1;
    }
    slice_subrange(data, start, end)
}

/// Listens on the console.
pub struct BootloaderHandler;

impl BootloaderHandler {
    /// A listener.
    pub fn new() -> (handler: Self)
        ensures
            handler == BootloaderHandler,
    {
        BootloaderHandler
    }

    /// What a message asks for.
    pub fn handle_data(&self, data: &[u8]) -> (command: Command)
        ensures
            command == command_of(data@),
            command == Command::ResetIntoDfu <==> exists|before: Seq<u8>, after: Seq<u8>|
                all_white(before) && all_white(after) && data@ == #[trigger] (before
                    + seq![0x72u8] + after),
            command == Command::TestPanic <==> exists|before: Seq<u8>, after: Seq<u8>|
                all_white(before) && all_white(after) && data@ == #[trigger] (before
                    + seq![0x70u8] + after),
    {
        proof {
            law_commands_are_single_letters(data@);
        }
        let word: &[u8] = trim_ascii(data);
        if word.len() == 1 && word[0] == LETTER_RESET {
            assert(word@ =~= seq![LETTER_RESET]);
            Command::ResetIntoDfu
        } else if word.len() == 1 && word[0] == LETTER_PANIC {
            assert(word@ =~= seq![LETTER_PANIC]);
            Command::TestPanic
        } else {
            Command::Nop
        }
    }
}

/// Trimming takes away white space and nothing else, and leaves none at either end.
pub proof fn law_trimming_takes_only_white_space(data: Seq<u8>)
    ensures
        exists|before: Seq<u8>, after: Seq<u8>|
            all_white(before) && all_white(after) && data == #[trigger] (before + trimmed(data)
                + after),
        trimmed(data).len() > 0 ==> !is_white(trimmed(data)[0]) && !is_white(trimmed(data).last()),
{
    let before = lemma_start_splits(data);
    let after = lemma_end_splits(trimmed_start(data));
    assert(data =~= before + trimmed(data) + after);
    if trimmed(data).len() > 0 {
        assert(trimmed_start(data)[0] == trimmed(data)[0]);
    }
}

/// Trimming what is trimmed changes nothing.
pub proof fn law_trimming_is_idempotent(data: Seq<u8>)
    ensures
        trimmed(trimmed(data)) == trimmed(data),
{
    law_trimming_takes_only_white_space(data);
}

/// White space around a message does not change what it asks for.
pub proof fn law_surrounding_white_space_is_ignored(
    before: Seq<u8>,
    data: Seq<u8>,
    after: Seq<u8>,
)
    requires
        all_white(before),
        all_white(after),
    ensures
        trimmed(before + data + after) == trimmed(data),
        command_of(before + data + after) == command_of(data),
{
    assert(before + data + after =~= before + (data + after));
    lemma_white_prefix(before, data + after);
    if all_white(data) {
        lemma_white_prefix(data, after);
        lemma_white_prefix(after, Seq::empty());
        assert(after + Seq::<u8>::empty() =~= after);
        lemma_white_prefix(data, Seq::empty());
        assert(data + Seq::<u8>::empty() =~= data);
    } else {
        lemma_start_then_suffix(data, after);
        lemma_white_suffix(trimmed_start(data), after);
    }
}

/// A message of white space alone asks for nothing.
pub proof fn law_blank_message_is_nop(data: Seq<u8>)
    requires
        all_white(data),
    ensures
        command_of(data) == Command::Nop,
{
    lemma_white_prefix(data, Seq::empty());
    assert(data + Seq::<u8>::empty() =~= data);
}

/// The white space that leads `data`.
proof fn lemma_start_splits(data: Seq<u8>) -> (before: Seq<u8>)
    ensures
        all_white(before),
        data == before + trimmed_start(data),
        trimmed_start(data).len() > 0 ==> !is_white(trimmed_start(data)[0]),
    decreases data.len(),
{
    if data.len() > 0 && is_white(data[0]) {
        let rest = lemma_start_splits(data.skip(1));
        let before = seq![data[0]] + rest;
        assert(data =~= seq![data[0]] + data.skip(1));
        assert(data =~= before + trimmed_start(data));
        before
    } else {
        assert(data =~= Seq::<u8>::empty() + data);
        Seq::empty()
    }
}

/// The white space that ends `data`.
proof fn lemma_end_splits(data: Seq<u8>) -> (after: Seq<u8>)
    ensures
        all_white(after),
        data == trimmed_end(data) + after,
        trimmed_end(data).len() > 0 ==> !is_white(trimmed_end(data).last()),
    decreases data.len(),
{
    if data.len() > 0 && is_white(data.last()) {
        let rest = lemma_end_splits(data.drop_last());
        let after = rest.push(data.last());
        assert(data =~= data.drop_last().push(data.last()));
        assert(data =~= trimmed_end(data) + after);
        after
    } else {
        assert(data =~= data + Seq::<u8>::empty());
        Seq::empty()
    }
}

/// Leading white space is taken away whatever follows.
proof fn lemma_white_prefix(before: Seq<u8>, data: Seq<u8>)
    requires
        all_white(before),
    ensures
        trimmed_start(before + data) == trimmed_start(data),
    decreases before.len(),
{
    if before.len() > 0 {
        lemma_white_prefix(before.skip(1), data);
        assert((before + data).skip(1) =~= before.skip(1) + data);
        assert((before + data)[0] == before[0]);
    } else {
        assert(before + data =~= data);
    }
}

/// White space at the end is taken away whatever leads.
proof fn lemma_white_suffix(data: Seq<u8>, after: Seq<u8>)
    requires
        all_white(after),
    ensures
        trimmed_end(data + after) == trimmed_end(data),
    decreases after.len(),
{
    if after.len() > 0 {
        lemma_white_suffix(data, after.drop_last());
        assert((data + after).drop_last() =~= data + after.drop_last());
        assert((data + after).last() == after.last());
        assert(after.last() == after[after.len() - 1]);
    } else {
        assert(data + after =~= data);
    }
}

/// Trimming the start stops inside the first part, if that is not all white space.
proof fn lemma_start_then_suffix(data: Seq<u8>, after: Seq<u8>)
    requires
        !all_white(data),
    ensures
        trimmed_start(data + after) == trimmed_start(data) + after,
    decreases data.len(),
{
    assert((data + after)[0] == data[0]);
    if is_white(data[0]) {
        assert(!all_white(data.skip(1))) by {
            let i = choose|i: int| 0 <= i < data.len() && !is_white(#[trigger] data[i]);
            assert(data.skip(1)[i - 1] == data[i]);
        }
        lemma_start_then_suffix(data.skip(1), after);
        assert((data + after).skip(1) =~= data.skip(1) + after);
    }
}

/// The white space of ASCII is the space and the control characters from tab to carriage
/// return, without the vertical tab; and data is all white space where each of its bytes is.
pub proof fn law_white_space(byte: u8, data: Seq<u8>)
    ensures
        is_white(byte) <==> byte == 0x20 || (0x09 <= byte <= 0x0D && byte != 0x0B),
        all_white(Seq::empty()),
        all_white(data.push(byte)) <==> all_white(data) && is_white(byte),
{
    let longer = data.push(byte);
    if all_white(longer) {
        assert forall|i: int| 0 <= i < data.len() implies is_white(#[trigger] data[i]) by {
            assert(longer[i] == data[i]);
        }
        assert(longer[data.len() as int] == byte);
    }
}

/// A message takes the scale into its bootloader if and only if it is an `r` with nothing but
/// white space around it; it makes the scale panic if and only if it is such a `p`; and every
/// other message does nothing.
pub proof fn law_commands_are_single_letters(data: Seq<u8>)
    ensures
        command_of(data) == Command::ResetIntoDfu <==> exists|before: Seq<u8>, after: Seq<u8>|
            all_white(before) && all_white(after) && data == #[trigger] (before + seq![0x72u8]
                + after),
        command_of(data) == Command::TestPanic <==> exists|before: Seq<u8>, after: Seq<u8>|
            all_white(before) && all_white(after) && data == #[trigger] (before + seq![0x70u8]
                + after),
        command_of(data) == Command::Nop <==> forall|before: Seq<u8>, letter: u8, after: Seq<u8>|
            all_white(before) && all_white(after) && data == #[trigger] (before + seq![letter]
                + after) ==> letter != 0x72 && letter != 0x70,
{
    lemma_trims_to_letter(data, 0x72);
    lemma_trims_to_letter(data, 0x70);
    assert(seq![0x72u8][0] != seq![0x70u8][0]);
}

/// A message with two bytes that are not white space does nothing, whatever they are and wherever
/// they stand.
pub proof fn law_two_visible_bytes_do_nothing(data: Seq<u8>, i: int, j: int)
    requires
        0 <= i < j < data.len(),
        !is_white(data[i]),
        !is_white(data[j]),
    ensures
        command_of(data) == Command::Nop,
{
    law_commands_are_single_letters(data);
    assert forall|before: Seq<u8>, letter: u8, after: Seq<u8>|
        all_white(before) && all_white(after) implies data != #[trigger] (before + seq![letter]
        + after) by {
        if data == before + seq![letter] + after {
            let n = before.len() as int;
            assert(i < n ==> data[i] == before[i]);
            assert(i > n ==> data[i] == after[i - n - 1]);
            assert(j < n ==> data[j] == before[j]);
            assert(j > n ==> data[j] == after[j - n - 1]);
        }
    }
}

/// Trimming leaves a single letter exactly where white space is all there is around it.
proof fn lemma_trims_to_letter(data: Seq<u8>, letter: u8)
    requires
        !is_white(letter),
    ensures
        trimmed(data) == seq![letter] <==> exists|before: Seq<u8>, after: Seq<u8>|
            all_white(before) && all_white(after) && data == #[trigger] (before + seq![letter]
                + after),
{
    law_trimming_takes_only_white_space(data);
    if exists|before: Seq<u8>, after: Seq<u8>|
        all_white(before) && all_white(after) && data == #[trigger] (before + seq![letter]
            + after) {
        let (before, after) = choose|before: Seq<u8>, after: Seq<u8>|
            all_white(before) && all_white(after) && data == #[trigger] (before + seq![letter]
                + after);
        law_surrounding_white_space_is_ignored(before, seq![letter], after);
        assert(trimmed(seq![letter]) == seq![letter]);
    }
}

} // verus!
