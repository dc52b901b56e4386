//! Helper functions used within the crate.

use crate::data_types::channel::{ChannelItem, TuningCaps};
use crate::data_types::enums::Profile;
use crate::data_types::traits::AsFFI;
use crate::error::{Error, Result};
use crate::wire;
use crate::wire::MAX_FREQUENCY;
use vstd::prelude::*;

verus! {

/// Turns a status code into a result: `Error::NoError` is success, every
/// other code is the error itself.
pub fn proc_err(code: Error) -> (r: Result<()>)
    ensures
        code == Error::NoError ==> r == Ok::<(), Error>(()),
        code != Error::NoError ==> r == Err::<(), Error>(code),
{
    if code == Error::NoError {
        Ok(())
    } else {
        Err(code)
    }
}

/// Converts a list of channel items into entries of the chip's channel
/// table, one for one and in order.
pub fn item_list_to_ffi(item_list: &[ChannelItem]) -> (ffi_list: Vec<wire::ChannelItem>)
    ensures
        ffi_list@.len() == item_list@.len(),
        forall|i: int| 0 <= i < item_list@.len() ==> ffi_list@[i]@ == item_list@[i].wire_entry(),
{
    let mut ffi_list: Vec<wire::ChannelItem> = Vec::new();
    let mut i: usize = 0;
    while i < item_list.len()
        invariant
            i <= item_list@.len(),
            ffi_list@.len() == i,
            forall|k: int| 0 <= k < i ==> ffi_list@[k]@ == item_list@[k].wire_entry(),
        decreases item_list@.len() - i,
    {
        ffi_list.push(item_list[i].as_ffi());
        i += 1;
    }
    ffi_list
}

/// The 7-bit groups of `n`, most significant first, one byte each. `flag` is
/// added to the last byte; every byte before it carries the continuation
/// flag 128.
pub open spec fn ebv_groups(n: nat, flag: nat) -> Seq<u8>
    decreases n,
{
    let last = seq![(n % 128 + flag) as u8];
    if n < 128 {
        last
    } else {
        ebv_groups(n / 128, 128) + last
    }
}

/// The extensible bit vector that stands for `n`: its 7-bit groups, most
/// significant first, with the top bit set in every byte but the last.
pub open spec fn ebv_encoding(n: nat) -> Seq<u8> {
    ebv_groups(n, 0)
}

/// The number that a sequence of EBV bytes stands for: each byte contributes
/// its low seven bits, the first byte the most significant ones.
pub open spec fn ebv_value(s: Seq<u8>) -> nat
    decreases s.len(),
{
    if s.len() == 0 {
        0
    } else {
        ebv_value(s.drop_last()) * 128 + (s.last() % 128) as nat
    }
}

/// Number of 7-bit groups that `n` needs, at least one.
pub open spec fn ebv_len(n: nat) -> nat
    decreases n,
{
    if n < 128 {
        1
    } else {
        1 + ebv_len(n / 128)
    }
}

/// Facts about [`ebv_groups`] for both values of the flag: the length, the
/// value read back, and where the continuation flag stands.
proof fn lemma_ebv_groups(n: nat, flag: nat)
    requires
        flag == 0 || flag == 128,
    ensures
        ebv_groups(n, flag).len() == ebv_len(n),
        ebv_value(ebv_groups(n, flag)) == n,
        ebv_groups(n, flag).last() == n % 128 + flag,
        forall|i: int|
            0 <= i < ebv_groups(n, flag).len() - 1 ==> #[trigger] ebv_groups(n, flag)[i] >= 128,
        n >= 128 ==> ebv_groups(n, flag)[0] > 128,
    decreases n,
{
    let s = ebv_groups(n, flag);
    let last = seq![(n % 128 + flag) as u8];
    if n < 128 {
        assert(s.drop_last() =~= Seq::<u8>::empty());
        assert(ebv_value(s.drop_last()) == 0);
    } else {
        let head = ebv_groups(n / 128, 128);
        lemma_ebv_groups(n / 128, 128);
        assert(s == head + last);
        assert(s.drop_last() =~= head);
        assert(s.last() == (n % 128 + flag) as u8);
        assert forall|i: int| 0 <= i < s.len() - 1 implies #[trigger] s[i] >= 128 by {
            assert(s[i] == head[i]);
            if i == head.len() - 1 {
                assert(head[i] == head.last());
            }
        }
        assert(s[0] == head[0]);
        if n / 128 < 128 {
            assert(head.len() == 1);
            assert(head[0] == head.last());
        }
    }
}

/// Decoding what the formatter produces gives the number back.
pub proof fn lemma_ebv_round_trip(n: nat)
    ensures
        ebv_value(ebv_encoding(n)) == n,
{
    lemma_ebv_groups(n, 0);
}

/// The continuation flag is set on every byte but the last, and on none
/// besides: a decoder that reads until the first byte below 128 reads the
/// whole encoding and nothing more.
pub proof fn lemma_ebv_continuation(n: nat)
    ensures
        ebv_encoding(n).len() == ebv_len(n),
        ebv_encoding(n).last() < 128,
        forall|i: int| 0 <= i < ebv_encoding(n).len() - 1 ==> #[trigger] ebv_encoding(n)[i] >= 128,
{
    lemma_ebv_groups(n, 0);
}

/// The encoding is as short as it can be: a number below 128 takes one byte,
/// and a longer encoding never starts with an empty group.
pub proof fn lemma_ebv_minimal(n: nat)
    ensures
        n < 128 ==> ebv_encoding(n) == seq![n as u8],
        n >= 128 ==> ebv_encoding(n).len() >= 2 && ebv_encoding(n)[0] > 128,
{
    lemma_ebv_groups(n, 0);
}

/// A 32-bit number takes at most five bytes.
pub proof fn lemma_ebv_len_u32(n: nat)
    requires
        n <= u32::MAX,
    ensures
        1 <= ebv_len(n) <= 5,
{
    reveal_with_fuel(ebv_len, 6);
}

proof fn lemma_reverse_push(s: Seq<u8>, b: u8)
    ensures
        s.push(b).reverse() == seq![b] + s.reverse(),
{
    assert(s.push(b).reverse() =~= seq![b] + s.reverse());
}

proof fn lemma_chunk(d: u32)
    ensures
        (d & 0x7f) == d % 128,
        (d >> 7) == d / 128,
        (d & 0x7f) < 128,
{
    assert((d & 0x7f) == d % 128) by (bit_vector);
    assert((d >> 7) == d / 128) by (bit_vector);
    assert((d & 0x7f) < 128) by (bit_vector);
}

proof fn lemma_flag(c: u8)
    requires
        c < 128,
    ensures
        (c | 0x80) == c + 128,
{
    assert(c < 128 ==> (c | 0x80) == c + 128) by (bit_vector);
}

/// Copies `v` back to front.
fn reversed(v: &Vec<u8>) -> (r: Vec<u8>)
    ensures
        r@ == v@.reverse(),
{
    let mut r: Vec<u8> = Vec::new();
    let mut i: usize = v.len();
    while i > 0
        invariant
            i <= v.len(),
            r@.len() == v.len() - i,
            forall|k: int| 0 <= k < r@.len() ==> r@[k] == v@[v.len() - 1 - k],
        decreases i,
    {
        i = i - 1;
        r.push(v[i]);
    }
    assert(r@ =~= v@.reverse());
    r
}

/// Formats a number as an extensible bit vector (EBV).
///
/// The chunks are produced least significant first, the continuation flag is
/// put on every chunk but the first one produced, and the list is reversed
/// at the end.
pub fn ebv_formatter(d_in: u32) -> (v: Vec<u8>)
    ensures
        v@ == ebv_encoding(d_in as nat),
        1 <= v@.len() <= 5,
{
    proof {
        lemma_ebv_continuation(d_in as nat);
        lemma_ebv_len_u32(d_in as nat);
    }
    let mut chunks: Vec<u8> = Vec::new();
    let mut rest: u32 = d_in;
    let mut first_run = true;
    loop
        invariant_except_break
            first_run ==> chunks@.len() == 0 && rest == d_in,
            !first_run ==> rest > 0 && ebv_encoding(d_in as nat) == ebv_groups(rest as nat, 128)
                + chunks@.reverse(),
        ensures
            ebv_encoding(d_in as nat) == chunks@.reverse(),
        decreases rest + (if first_run { 1nat } else { 0nat }),
    {
        proof {
            lemma_chunk(rest);
        }
        let ghost before = rest;
        let ghost seen = chunks@;
        let chunk: u8 = (rest & 0x7f) as u8;
        rest = rest >> 7;
        if first_run {
            chunks.push(chunk);
            first_run = false;
            proof {
                assert(chunks@.reverse() =~= seq![chunk]);
                assert(ebv_groups(before as nat, 0) == if before < 128 {
                    seq![chunk]
                } else {
                    ebv_groups(rest as nat, 128) + seq![chunk]
                });
            }
        } else {
            proof {
                lemma_flag(chunk);
            }
            let flagged: u8 = chunk | 0x80;
            chunks.push(flagged);
            proof {
                lemma_reverse_push(seen, flagged);
                assert(ebv_groups(before as nat, 128) == if before < 128 {
                    seq![flagged]
                } else {
                    ebv_groups(rest as nat, 128) + seq![flagged]
                });
                assert((ebv_groups(rest as nat, 128) + seq![flagged]) + seen.reverse()
                    =~= ebv_groups(rest as nat, 128) + (seq![flagged] + seen.reverse()));
            }
        }
        if rest == 0 {
            break ;
        }
    }
    reversed(&chunks)
}

/// Number of channels that a profile holds.
pub open spec fn profile_len(profile: Profile) -> nat {
    match profile {
        Profile::Europe => 4,
        Profile::Usa => 50,
        Profile::Japan => 9,
        Profile::China => 16,
        Profile::China2 => 9,
    }
}

/// Frequency (kHz) of the first channel of a profile.
pub open spec fn profile_base(profile: Profile) -> int {
    match profile {
        Profile::Europe => 865700,
        Profile::Usa => 902750,
        Profile::Japan => 920500,
        Profile::China => 840625,
        Profile::China2 => 920500,
    }
}

/// Distance (kHz) between neighbouring channels of a profile.
pub open spec fn profile_step(profile: Profile) -> int {
    match profile {
        Profile::Europe => 600,
        Profile::Usa => 500,
        Profile::Japan => 200,
        Profile::China => 250,
        Profile::China2 => 200,
    }
}

/// Frequency (kHz) of channel `i` of a profile: the channels of a profile
/// are evenly spaced.
pub open spec fn profile_frequency(profile: Profile, i: int) -> int {
    profile_base(profile) + profile_step(profile) * i
}

/// Tuning capacitors of the first antenna at channel `i` of a profile.
pub open spec fn profile_caps_first(profile: Profile, i: int) -> TuningCaps {
    match profile {
        Profile::Europe => {
            if i < 2 {
                TuningCaps::from(12, 12, 14)
            } else {
                TuningCaps::from(11, 12, 14)
            }
        },
        Profile::Usa => {
            if i < 4 {
                TuningCaps::from(13, 24, 12)
            } else if i < 6 {
                TuningCaps::from(9, 8, 12)
            } else if i < 7 {
                TuningCaps::from(9, 19, 14)
            } else if i < 12 {
                TuningCaps::from(9, 8, 12)
            } else if i < 22 {
                TuningCaps::from(9, 23, 14)
            } else if i < 30 {
                TuningCaps::from(9, 8, 12)
            } else if i < 31 {
                TuningCaps::from(9, 10, 12)
            } else if i < 39 {
                TuningCaps::from(12, 24, 12)
            } else if i < 47 {
                TuningCaps::from(10, 16, 12)
            } else {
                TuningCaps::from(8, 6, 12)
            }
        },
        Profile::Japan | Profile::China2 => {
            TuningCaps::from(10, 16, 12)
        },
        Profile::China => {
            if i < 6 {
                TuningCaps::from(15, 21, 15)
            } else if i < 10 {
                TuningCaps::from(13, 14, 15)
            } else {
                TuningCaps::from(15, 23, 15)
            }
        },
    }
}

/// Tuning capacitors of the second antenna at channel `i` of a profile.
pub open spec fn profile_caps_second(profile: Profile, i: int) -> TuningCaps {
    match profile {
        Profile::Europe => {
            if i < 1 {
                TuningCaps::from(12, 9, 16)
            } else {
                TuningCaps::from(11, 9, 16)
            }
        },
        Profile::Usa => {
            if i < 6 {
                TuningCaps::from(9, 19, 15)
            } else if i < 8 {
                TuningCaps::from(10, 25, 15)
            } else if i < 14 {
                TuningCaps::from(9, 21, 15)
            } else if i < 20 {
                TuningCaps::from(9, 22, 15)
            } else if i < 23 {
                TuningCaps::from(9, 8, 13)
            } else if i < 27 {
                TuningCaps::from(9, 25, 15)
            } else if i < 31 {
                TuningCaps::from(9, 14, 14)
            } else if i < 33 {
                TuningCaps::from(9, 27, 15)
            } else if i < 40 {
                TuningCaps::from(9, 29, 15)
            } else {
                TuningCaps::from(9, 30, 15)
            }
        },
        Profile::Japan | Profile::China2 => {
            if i < 8 {
                TuningCaps::from(9, 29, 15)
            } else {
                TuningCaps::from(9, 30, 15)
            }
        },
        Profile::China => {
            if i < 8 {
                TuningCaps::from(13, 15, 18)
            } else {
                TuningCaps::from(16, 20, 17)
            }
        },
    }
}

/// Channel `i` of a profile.
pub open spec fn profile_item(profile: Profile, i: int) -> ChannelItem {
    ChannelItem::from(
        profile_frequency(profile, i) as u32,
        [profile_caps_first(profile, i), profile_caps_second(profile, i)],
    )
}

/// The channel table of a profile. The alternative Chinese profile is the
/// Japanese one.
pub open spec fn profile_table(profile: Profile) -> Seq<ChannelItem> {
    Seq::new(profile_len(profile), |i: int| profile_item(profile, i))
}

/// Every profile fits the chip's channel table.
pub proof fn lemma_profile_fits(profile: Profile)
    ensures
        1 <= profile_table(profile).len() <= MAX_FREQUENCY,
{
}

/// Within a profile the frequencies rise from channel to channel.
pub proof fn lemma_profile_frequencies_rise(profile: Profile, i: int, j: int)
    requires
        0 <= i < j < profile_len(profile),
    ensures
        profile_table(profile)[i].frequency < profile_table(profile)[j].frequency,
{
    let step = profile_step(profile);
    assert(0 <= step * i < step * j <= step * 50) by (nonlinear_arith)
        requires
            0 <= i < j <= 50,
            step > 0,
    ;
}

/// Converts the profile enum into an item list: the channel table that the
/// firmware defines for the region.
pub fn profile_to_item_list(profile: Profile) -> (list: Vec<ChannelItem>)
    ensures
        list@ == profile_table(profile),
        list@.len() <= MAX_FREQUENCY,
{
    let list = match profile {
        Profile::Europe => {
            vec![
                ChannelItem::from(
                    865700,
                    [TuningCaps::from(12, 12, 14), TuningCaps::from(12, 9, 16)],
                ),
                ChannelItem::from(
                    866300,
                    [TuningCaps::from(12, 12, 14), TuningCaps::from(11, 9, 16)],
                ),
                ChannelItem::from(
                    866900,
                    [TuningCaps::from(11, 12, 14), TuningCaps::from(11, 9, 16)],
                ),
                ChannelItem::from(
                    867500,
                    [TuningCaps::from(11, 12, 14), TuningCaps::from(11, 9, 16)],
                ),
            ]
        },
        Profile::Usa => {
            vec![
                ChannelItem::from(
                    902750,
                    [TuningCaps::from(13, 24, 12), TuningCaps::from(9, 19, 15)],
                ),
                ChannelItem::from(
                    903250,
                    [TuningCaps::from(13, 24, 12), TuningCaps::from(9, 19, 15)],
                ),
                ChannelItem::from(
                    903750,
                    [TuningCaps::from(13, 24, 12), TuningCaps::from(9, 19, 15)],
                ),
                ChannelItem::from(
                    904250,
                    [TuningCaps::from(13, 24, 12), TuningCaps::from(9, 19, 15)],
                ),
                ChannelItem::from(
                    904750,
                    [TuningCaps::from(9, 8, 12), TuningCaps::from(9, 19, 15)],
                ),
                ChannelItem::from(
                    905250,
                    [TuningCaps::from(9, 8, 12), TuningCaps::from(9, 19, 15)],
                ),
                ChannelItem::from(
                    905750,
                    [TuningCaps::from(9, 19, 14), TuningCaps::from(10, 25, 15)],
                ),
                ChannelItem::from(
                    906250,
                    [TuningCaps::from(9, 8, 12), TuningCaps::from(10, 25, 15)],
                ),
                ChannelItem::from(
                    906750,
                    [TuningCaps::from(9, 8, 12), TuningCaps::from(9, 21, 15)],
                ),
                ChannelItem::from(
                    907250,
                    [TuningCaps::from(9, 8, 12), TuningCaps::from(9, 21, 15)],
                ),
                ChannelItem::from(
                    907750,
                    [TuningCaps::from(9, 8, 12), TuningCaps::from(9, 21, 15)],
                ),
                ChannelItem::from(
                    908250,
                    [TuningCaps::from(9, 8, 12), TuningCaps::from(9, 21, 15)],
                ),
                ChannelItem::from(
                    908750,
                    [TuningCaps::from(9, 23, 14), TuningCaps::from(9, 21, 15)],
                ),
                ChannelItem::from(
                    909250,
                    [TuningCaps::from(9, 23, 14), TuningCaps::from(9, 21, 15)],
                ),
                ChannelItem::from(
                    909750,
                    [TuningCaps::from(9, 23, 14), TuningCaps::from(9, 22, 15)],
                ),
                ChannelItem::from(
                    910250,
                    [TuningCaps::from(9, 23, 14), TuningCaps::from(9, 22, 15)],
                ),
                ChannelItem::from(
                    910750,
                    [TuningCaps::from(9, 23, 14), TuningCaps::from(9, 22, 15)],
                ),
                ChannelItem::from(
                    911250,
                    [TuningCaps::from(9, 23, 14), TuningCaps::from(9, 22, 15)],
                ),
                ChannelItem::from(
                    911750,
                    [TuningCaps::from(9, 23, 14), TuningCaps::from(9, 22, 15)],
                ),
                ChannelItem::from(
                    912250,
                    [TuningCaps::from(9, 23, 14), TuningCaps::from(9, 22, 15)],
                ),
                ChannelItem::from(
                    912750,
                    [TuningCaps::from(9, 23, 14), TuningCaps::from(9, 8, 13)],
                ),
                ChannelItem::from(
                    913250,
                    [TuningCaps::from(9, 23, 14), TuningCaps::from(9, 8, 13)],
                ),
                ChannelItem::from(
                    913750,
                    [TuningCaps::from(9, 8, 12), TuningCaps::from(9, 8, 13)],
                ),
                ChannelItem::from(
                    914250,
                    [TuningCaps::from(9, 8, 12), TuningCaps::from(9, 25, 15)],
                ),
                ChannelItem::from(
                    914750,
                    [TuningCaps::from(9, 8, 12), TuningCaps::from(9, 25, 15)],
                ),
                ChannelItem::from(
                    915250,
                    [TuningCaps::from(9, 8, 12), TuningCaps::from(9, 25, 15)],
                ),
                ChannelItem::from(
                    915750,
                    [TuningCaps::from(9, 8, 12), TuningCaps::from(9, 25, 15)],
                ),
                ChannelItem::from(
                    916250,
                    [TuningCaps::from(9, 8, 12), TuningCaps::from(9, 14, 14)],
                ),
                ChannelItem::from(
                    916750,
                    [TuningCaps::from(9, 8, 12), TuningCaps::from(9, 14, 14)],
                ),
                ChannelItem::from(
                    917250,
                    [TuningCaps::from(9, 8, 12), TuningCaps::from(9, 14, 14)],
                ),
                ChannelItem::from(
                    917750,
                    [TuningCaps::from(9, 10, 12), TuningCaps::from(9, 14, 14)],
                ),
                ChannelItem::from(
                    918250,
                    [TuningCaps::from(12, 24, 12), TuningCaps::from(9, 27, 15)],
                ),
                ChannelItem::from(
                    918750,
                    [TuningCaps::from(12, 24, 12), TuningCaps::from(9, 27, 15)],
                ),
                ChannelItem::from(
                    919250,
                    [TuningCaps::from(12, 24, 12), TuningCaps::from(9, 29, 15)],
                ),
                ChannelItem::from(
                    919750,
                    [TuningCaps::from(12, 24, 12), TuningCaps::from(9, 29, 15)],
                ),
                ChannelItem::from(
                    920250,
                    [TuningCaps::from(12, 24, 12), TuningCaps::from(9, 29, 15)],
                ),
                ChannelItem::from(
                    920750,
                    [TuningCaps::from(12, 24, 12), TuningCaps::from(9, 29, 15)],
                ),
                ChannelItem::from(
                    921250,
                    [TuningCaps::from(12, 24, 12), TuningCaps::from(9, 29, 15)],
                ),
                ChannelItem::from(
                    921750,
                    [TuningCaps::from(12, 24, 12), TuningCaps::from(9, 29, 15)],
                ),
                ChannelItem::from(
                    922250,
                    [TuningCaps::from(10, 16, 12), TuningCaps::from(9, 29, 15)],
                ),
                ChannelItem::from(
                    922750,
                    [TuningCaps::from(10, 16, 12), TuningCaps::from(9, 30, 15)],
                ),
                ChannelItem::from(
                    923250,
                    [TuningCaps::from(10, 16, 12), TuningCaps::from(9, 30, 15)],
                ),
                ChannelItem::from(
                    923750,
                    [TuningCaps::from(10, 16, 12), TuningCaps::from(9, 30, 15)],
                ),
                ChannelItem::from(
                    924250,
                    [TuningCaps::from(10, 16, 12), TuningCaps::from(9, 30, 15)],
                ),
                ChannelItem::from(
                    924750,
                    [TuningCaps::from(10, 16, 12), TuningCaps::from(9, 30, 15)],
                ),
                ChannelItem::from(
                    925250,
                    [TuningCaps::from(10, 16, 12), TuningCaps::from(9, 30, 15)],
                ),
                ChannelItem::from(
                    925750,
                    [TuningCaps::from(10, 16, 12), TuningCaps::from(9, 30, 15)],
                ),
                ChannelItem::from(
                    926250,
                    [TuningCaps::from(8, 6, 12), TuningCaps::from(9, 30, 15)],
                ),
                ChannelItem::from(
                    926750,
                    [TuningCaps::from(8, 6, 12), TuningCaps::from(9, 30, 15)],
                ),
                ChannelItem::from(
                    927250,
                    [TuningCaps::from(8, 6, 12), TuningCaps::from(9, 30, 15)],
                ),
            ]
        },
        Profile::Japan => {
            vec![
                ChannelItem::from(
                    920500,
                    [TuningCaps::from(10, 16, 12), TuningCaps::from(9, 29, 15)],
                ),
                ChannelItem::from(
                    920700,
                    [TuningCaps::from(10, 16, 12), TuningCaps::from(9, 29, 15)],
                ),
                ChannelItem::from(
                    920900,
                    [TuningCaps::from(10, 16, 12), TuningCaps::from(9, 29, 15)],
                ),
                ChannelItem::from(
                    921100,
                    [TuningCaps::from(10, 16, 12), TuningCaps::from(9, 29, 15)],
                ),
                ChannelItem::from(
                    921300,
                    [TuningCaps::from(10, 16, 12), TuningCaps::from(9, 29, 15)],
                ),
                ChannelItem::from(
                    921500,
                    [TuningCaps::from(10, 16, 12), TuningCaps::from(9, 29, 15)],
                ),
                ChannelItem::from(
                    921700,
                    [TuningCaps::from(10, 16, 12), TuningCaps::from(9, 29, 15)],
                ),
                ChannelItem::from(
                    921900,
                    [TuningCaps::from(10, 16, 12), TuningCaps::from(9, 29, 15)],
                ),
                ChannelItem::from(
                    922100,
                    [TuningCaps::from(10, 16, 12), TuningCaps::from(9, 30, 15)],
                ),
            ]
        },
        Profile::China => {
            vec![
                ChannelItem::from(
                    840625,
                    [TuningCaps::from(15, 21, 15), TuningCaps::from(13, 15, 18)],
                ),
                ChannelItem::from(
                    840875,
                    [TuningCaps::from(15, 21, 15), TuningCaps::from(13, 15, 18)],
                ),
                ChannelItem::from(
                    841125,
                    [TuningCaps::from(15, 21, 15), TuningCaps::from(13, 15, 18)],
                ),
                ChannelItem::from(
                    841375,
                    [TuningCaps::from(15, 21, 15), TuningCaps::from(13, 15, 18)],
                ),
                ChannelItem::from(
                    841625,
                    [TuningCaps::from(15, 21, 15), TuningCaps::from(13, 15, 18)],
                ),
                ChannelItem::from(
                    841875,
                    [TuningCaps::from(15, 21, 15), TuningCaps::from(13, 15, 18)],
                ),
                ChannelItem::from(
                    842125,
                    [TuningCaps::from(13, 14, 15), TuningCaps::from(13, 15, 18)],
                ),
                ChannelItem::from(
                    842375,
                    [TuningCaps::from(13, 14, 15), TuningCaps::from(13, 15, 18)],
                ),
                ChannelItem::from(
                    842625,
                    [TuningCaps::from(13, 14, 15), TuningCaps::from(16, 20, 17)],
                ),
                ChannelItem::from(
                    842875,
                    [TuningCaps::from(13, 14, 15), TuningCaps::from(16, 20, 17)],
                ),
                ChannelItem::from(
                    843125,
                    [TuningCaps::from(15, 23, 15), TuningCaps::from(16, 20, 17)],
                ),
                ChannelItem::from(
                    843375,
                    [TuningCaps::from(15, 23, 15), TuningCaps::from(16, 20, 17)],
                ),
                ChannelItem::from(
                    843625,
                    [TuningCaps::from(15, 23, 15), TuningCaps::from(16, 20, 17)],
                ),
                ChannelItem::from(
                    843875,
                    [TuningCaps::from(15, 23, 15), TuningCaps::from(16, 20, 17)],
                ),
                ChannelItem::from(
                    844125,
                    [TuningCaps::from(15, 23, 15), TuningCaps::from(16, 20, 17)],
                ),
                ChannelItem::from(
                    844375,
                    [TuningCaps::from(15, 23, 15), TuningCaps::from(16, 20, 17)],
                ),
            ]
        },
        Profile::China2 => {
            vec![
                ChannelItem::from(
                    920500,
                    [TuningCaps::from(10, 16, 12), TuningCaps::from(9, 29, 15)],
                ),
                ChannelItem::from(
                    920700,
                    [TuningCaps::from(10, 16, 12), TuningCaps::from(9, 29, 15)],
                ),
                ChannelItem::from(
                    920900,
                    [TuningCaps::from(10, 16, 12), TuningCaps::from(9, 29, 15)],
                ),
                ChannelItem::from(
                    921100,
                    [TuningCaps::from(10, 16, 12), TuningCaps::from(9, 29, 15)],
                ),
                ChannelItem::from(
                    921300,
                    [TuningCaps::from(10, 16, 12), TuningCaps::from(9, 29, 15)],
                ),
                ChannelItem::from(
                    921500,
                    [TuningCaps::from(10, 16, 12), TuningCaps::from(9, 29, 15)],
                ),
                ChannelItem::from(
                    921700,
                    [TuningCaps::from(10, 16, 12), TuningCaps::from(9, 29, 15)],
                ),
                ChannelItem::from(
                    921900,
                    [TuningCaps::from(10, 16, 12), TuningCaps::from(9, 29, 15)],
                ),
                ChannelItem::from(
                    922100,
                    [TuningCaps::from(10, 16, 12), TuningCaps::from(9, 30, 15)],
                ),
            ]
        },
    };
    assert(list@ =~= profile_table(profile));
    list
}

} // verus!
