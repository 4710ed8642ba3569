//! Surface formats and the choice of the ideal one among those a surface
//! offers.

use vstd::prelude::*;
use gfx_hal::format::ChannelType;
use gfx_hal::format::Format;

verus! {

/// gfx-hal's format identifier, carried through the library unchanged.
#[verifier::external_type_specification]
#[verifier::external_body]
pub struct ExFormat(gfx_hal::format::Format);

/// How the storage of a format's channels is interpreted.
#[derive(Clone, Copy, Debug, PartialEq, Eq, Structural)]
pub enum Channel {
    Unorm,
    Snorm,
    Uint,
    Sint,
    Ufloat,
    Sfloat,
    Uscaled,
    Sscaled,
    Srgb,
}

/// What the choice of a surface format looks at: whether texels are stored
/// in compressed blocks, how the channels are interpreted, and the number of
/// bits per texel (per block for a compressed format).
#[derive(Clone, Copy, Debug, PartialEq, Eq, Structural)]
pub struct FormatInfo {
    pub compressed: bool,
    pub channel: Channel,
    pub bits: u16,
}

/// gfx-hal's count of format numbers (`gfx_hal::format::NUM_FORMATS`): the
/// formats are numbered from 1 to one below it, and the number equal to it
/// belongs to the hidden sentinel variant `Format::__NumFormats`.
pub const NUM_FORMATS: u32 = 185;

/// The number of a format, its discriminant.
pub uninterp spec fn format_number(format: Format) -> u32;

/// A real format: its number lies in 1..NUM_FORMATS. The sentinel
/// `Format::__NumFormats` is the one value of the type that is not.
pub open spec fn format_defined(format: Format) -> bool {
    0 < format_number(format) && format_number(format) < NUM_FORMATS
}

/// Every format of the sequence is a real one.
pub open spec fn formats_defined(formats: Seq<Format>) -> bool {
    forall|i: int| 0 <= i < formats.len() ==> format_defined(#[trigger] formats[i])
}

/// The number of `format`: the `#[repr(u32)]` discriminant, read with `as`.
#[verifier::external_body]
fn number_of(format: Format) -> (number: u32)
    ensures
        number == format_number(format),
{
    format as u32
}

/// Whether `format` is a real format (not the hidden sentinel).
pub fn is_format_defined(format: Format) -> (r: bool)
    ensures
        r == format_defined(format),
{
    let number = number_of(format);
    0 < number && number < NUM_FORMATS
}

/// Whether every format of `formats` is a real one.
pub fn are_formats_defined(formats: &Vec<Format>) -> (r: bool)
    ensures
        r == formats_defined(formats@),
{
    let mut i: usize = 0;
    while i < formats.len()
        invariant
            i <= formats.len(),
            forall|k: int| 0 <= k < i ==> format_defined(#[trigger] formats@[k]),
        decreases formats.len() - i,
    {
        if !is_format_defined(formats[i]) {
            assert(!format_defined(formats@[i as int]));
            return false;
        }
        i = i + 1;
    }
    true
}

/// The description that gfx-hal gives of a format.
pub uninterp spec fn format_info(format: Format) -> FormatInfo;

/// Describes `format` through gfx-hal: `Format::base_format` gives the
/// surface type and the channel type, `SurfaceType::desc` the bit count and
/// the block dimensions, and `FormatDesc::is_compressed` whether the blocks
/// hold more than one texel. The contract claims only that the result is a
/// function of the format; which formats gfx-hal marks compressed, sRGB or
/// how many bits it gives them is left unsaid. `base_format` asserts that
/// the format's number is neither 0 nor `NUM_FORMATS`, so the sentinel is
/// left out by `requires`.
#[verifier::external_body]
fn describe_format(format: Format) -> (info: FormatInfo)
    requires
        format_defined(format),
    ensures
        info == format_info(format),
{
    let base = format.base_format();
    let desc = base.0.desc();
    let channel = match base.1 {
        ChannelType::Unorm => Channel::Unorm, ChannelType::Snorm => Channel::Snorm,
        ChannelType::Uint => Channel::Uint, ChannelType::Sint => Channel::Sint,
        ChannelType::Ufloat => Channel::Ufloat, ChannelType::Sfloat => Channel::Sfloat,
        ChannelType::Uscaled => Channel::Uscaled, ChannelType::Sscaled => Channel::Sscaled,
        ChannelType::Srgb => Channel::Srgb,
    };
    FormatInfo { compressed: desc.is_compressed(), channel, bits: desc.bits }
}

/// The preference key of a format: uncompressed before compressed, then
/// sRGB before any other channel type, then more bits before fewer. The
/// three criteria are weighted so that the integer order is the
/// lexicographic order of the key (`bits` is below 2^16).
pub open spec fn format_rank(info: FormatInfo) -> int {
    (if info.compressed { 0int } else { 0x20000int })
        + (if info.channel == Channel::Srgb { 0x10000int } else { 0int })
        + info.bits as int
}

/// The index that a scan keeping the best format so far picks: a later
/// format replaces the kept one when its key is at least as high.
pub open spec fn ideal_index(infos: Seq<FormatInfo>) -> int
    decreases infos.len(),
{
    if infos.len() <= 1 {
        0
    } else {
        let kept = ideal_index(infos.drop_last());
        if format_rank(infos[kept]) <= format_rank(infos.last()) {
            infos.len() - 1
        } else {
            kept
        }
    }
}

/// The descriptions of a sequence of formats.
pub open spec fn format_infos(formats: Seq<Format>) -> Seq<FormatInfo> {
    formats.map_values(|f: Format| format_info(f))
}

/// The ideal index is the last of the formats whose key is highest.
pub proof fn lemma_ideal_index_is_last_maximum(infos: Seq<FormatInfo>)
    requires
        infos.len() > 0,
    ensures
        0 <= ideal_index(infos) < infos.len(),
        forall|j: int| 0 <= j < infos.len() ==> format_rank(#[trigger] infos[j]) <= format_rank(infos[ideal_index(infos)]),
        forall|j: int| ideal_index(infos) < j < infos.len() ==> format_rank(#[trigger] infos[j]) < format_rank(infos[ideal_index(infos)]),
    decreases infos.len(),
{
    if infos.len() > 1 {
        let prefix = infos.drop_last();
        lemma_ideal_index_is_last_maximum(prefix);
        let kept = ideal_index(prefix);
        let best = ideal_index(infos);
        assert(prefix[kept] == infos[kept]);
        assert forall|j: int| 0 <= j < infos.len() implies format_rank(#[trigger] infos[j]) <= format_rank(infos[best]) by {
            if j < prefix.len() {
                assert(prefix[j] == infos[j]);
            }
        }
        assert forall|j: int| best < j < infos.len() implies format_rank(#[trigger] infos[j]) < format_rank(infos[best]) by {
            if j < prefix.len() {
                assert(prefix[j] == infos[j]);
            }
        }
    }
}

/// Picks the index of the ideal format among `infos`: the last one of those
/// whose key (uncompressed, sRGB, bits) is highest.
pub fn ideal_format_index(infos: &Vec<FormatInfo>) -> (index: usize)
    requires
        infos.len() > 0,
    ensures
        index == ideal_index(infos@),
        index < infos.len(),
        forall|j: int| 0 <= j < infos.len() ==> format_rank(#[trigger] infos@[j]) <= format_rank(infos@[index as int]),
        forall|j: int| index < j < infos.len() ==> format_rank(#[trigger] infos@[j]) < format_rank(infos@[index as int]),
{
    let mut best: usize = 0;
    let mut i: usize = 1;
    while i < infos.len()
        invariant
            1 <= i <= infos.len(),
            best == ideal_index(infos@.take(i as int)),
        decreases infos.len() - i,
    {
        proof {
            assert(infos@.take(i + 1).drop_last() =~= infos@.take(i as int));
            lemma_ideal_index_is_last_maximum(infos@.take(i as int));
        }
        let kept = infos[best];
        let next = infos[i];
        let kept_key = rank_of(&kept);
        let next_key = rank_of(&next);
        if kept_key <= next_key {
            best = i;
        }
        i = i + 1;
    }
    proof {
        assert(infos@.take(infos.len() as int) =~= infos@);
        lemma_ideal_index_is_last_maximum(infos@);
    }
    best
}

/// The preference key of a format as a machine integer.
fn rank_of(info: &FormatInfo) -> (rank: u32)
    ensures
        rank == format_rank(*info),
{
    let mut rank: u32 = info.bits as u32;
    if !info.compressed {
        rank = rank + 0x20000;
    }
    if info.channel == Channel::Srgb {
        rank = rank + 0x10000;
    }
    rank
}

/// Describes each format through gfx-hal, in order.
pub fn describe_formats(formats: &Vec<Format>) -> (infos: Vec<FormatInfo>)
    requires
        formats_defined(formats@),
    ensures
        infos@ == format_infos(formats@),
{
    let mut infos: Vec<FormatInfo> = Vec::new();
    let mut i: usize = 0;
    while i < formats.len()
        invariant
            i <= formats.len(),
            formats_defined(formats@),
            infos@ == format_infos(formats@.take(i as int)),
        decreases formats.len() - i,
    {
        let info = describe_format(formats[i]);
        infos.push(info);
        proof {
            assert(format_infos(formats@.take(i + 1)) =~= format_infos(formats@.take(i as int)).push(info));
        }
        i = i + 1;
    }
    proof {
        assert(formats@.take(formats.len() as int) =~= formats@);
    }
    infos
}

/// The ideal format among those a surface supports: the last of the
/// formats whose key (uncompressed, sRGB, bits), as gfx-hal describes them,
/// is highest.
pub fn ideal_format(formats: &Vec<Format>) -> (format: Format)
    requires
        formats.len() > 0,
        formats_defined(formats@),
    ensures
        format == formats@[ideal_index(format_infos(formats@))],
{
    let infos = describe_formats(formats);
    let index = ideal_format_index(&infos);
    formats[index]
}

/// The ideal format among `formats`, or `None` when there is none to choose
/// from or one of them is the hidden sentinel, which gfx-hal cannot describe.
pub fn checked_ideal_format(formats: &Vec<Format>) -> (format: Option<Format>)
    ensures
        format is None <==> (formats.len() == 0 || !formats_defined(formats@)),
        format matches Some(f) ==> f == formats@[ideal_index(format_infos(formats@))],
{
    if formats.len() == 0 || !are_formats_defined(formats) {
        None
    } else {
        Some(ideal_format(formats))
    }
}

/// The ideal format wins, over every other offered format, on the first of
/// these criteria in which they differ: being uncompressed, being sRGB,
/// having more bits. No later format ties with it on all three (the last of
/// equals is taken), and no format beats it.
pub proof fn law_ideal_format_order(infos: Seq<FormatInfo>, j: int)
    requires
        0 <= j < infos.len(),
    ensures ({
        let best = infos[ideal_index(infos)];
        let other = infos[j];
        let best_srgb = best.channel == Channel::Srgb;
        let other_srgb = other.channel == Channel::Srgb;
        &&& best.compressed ==> other.compressed
        &&& (best.compressed == other.compressed && other_srgb) ==> best_srgb
        &&& (best.compressed == other.compressed && best_srgb == other_srgb) ==> other.bits <= best.bits
        &&& j > ideal_index(infos) ==> (
            (other.compressed && !best.compressed)
            || (best.compressed == other.compressed && best_srgb && !other_srgb)
            || (best.compressed == other.compressed && best_srgb == other_srgb && other.bits < best.bits))
    }),
{
    lemma_ideal_index_is_last_maximum(infos);
    let best = infos[ideal_index(infos)];
    assert(format_rank(infos[j]) <= format_rank(best));
    assert(j > ideal_index(infos) ==> format_rank(infos[j]) < format_rank(best));
}

/// Between two formats that agree on compression and on being sRGB, the one
/// with more bits ranks strictly higher.
pub proof fn law_rank_grows_with_bits(a: FormatInfo, b: FormatInfo)
    requires
        a.compressed == b.compressed,
        (a.channel == Channel::Srgb) == (b.channel == Channel::Srgb),
        a.bits < b.bits,
    ensures
        format_rank(a) < format_rank(b),
{
}

/// An uncompressed format is always preferred to a compressed one: if any
/// offered format is uncompressed, the ideal one is.
pub proof fn law_uncompressed_preferred(infos: Seq<FormatInfo>, j: int)
    requires
        0 <= j < infos.len(),
        !infos[j].compressed,
    ensures
        !infos[ideal_index(infos)].compressed,
{
    lemma_ideal_index_is_last_maximum(infos);
    assert(format_rank(infos[j]) <= format_rank(infos[ideal_index(infos)]));
}

/// Among uncompressed formats an sRGB one is preferred: if any offered
/// format is uncompressed and sRGB, the ideal one is both.
pub proof fn law_srgb_preferred(infos: Seq<FormatInfo>, j: int)
    requires
        0 <= j < infos.len(),
        !infos[j].compressed,
        infos[j].channel == Channel::Srgb,
    ensures
        !infos[ideal_index(infos)].compressed,
        infos[ideal_index(infos)].channel == Channel::Srgb,
{
    lemma_ideal_index_is_last_maximum(infos);
    assert(format_rank(infos[j]) <= format_rank(infos[ideal_index(infos)]));
}

/// The choice depends on the descriptions alone: offering formats described
/// alike, in the same order, picks the same position.
pub proof fn law_choice_follows_descriptions(a: Seq<Format>, b: Seq<Format>)
    requires
        format_infos(a) == format_infos(b),
    ensures
        ideal_index(format_infos(a)) == ideal_index(format_infos(b)),
{
}

} // verus!
