//! A quick look at the content of a CPU texture plane: the smallest,
//! largest and mean value and the non-zero count over an evenly spaced
//! sample of at most a few thousand values.
use vstd::prelude::*;
use crate::text::{bool_text, dec_nat, push_bool, push_u64};

verus! {

/// How much of a texture was last updated.
#[derive(Clone, Copy, Debug, PartialEq, Eq, Structural)]
pub enum TextureUpdateExtent {
    Empty,
    Partial,
    Full,
}

/// The marker label of an update extent.
pub open spec fn texture_updated_label_spec(updated: TextureUpdateExtent) -> Seq<char> {
    match updated {
        TextureUpdateExtent::Empty => "empty"@,
        TextureUpdateExtent::Partial => "partial"@,
        TextureUpdateExtent::Full => "full"@,
    }
}

/// The marker label of an update extent.
pub fn texture_updated_label(updated: TextureUpdateExtent) -> (label: &'static str)
    ensures
        label@ == texture_updated_label_spec(updated),
{
    proof {
        reveal_strlit("empty");
        reveal_strlit("partial");
        reveal_strlit("full");
    }
    match updated {
        TextureUpdateExtent::Empty => "empty",
        TextureUpdateExtent::Partial => "partial",
        TextureUpdateExtent::Full => "full",
    }
}

/// What the content probe found in one texture plane.
pub struct TexturePlaneContentStats {
    pub format: &'static str,
    pub readable: bool,
    pub data_present: bool,
    pub width: usize,
    pub height: usize,
    pub len: usize,
    pub updated: &'static str,
    pub sample_count: usize,
    pub min: u8,
    pub max: u8,
    pub mean_x1000: u32,
    pub nonzero_samples: usize,
}

/// The smallest value of a sequence, `255` for an empty one.
pub open spec fn seq_min(s: Seq<u8>) -> u8
    decreases s.len(),
{
    if s.len() == 0 {
        u8::MAX
    } else {
        let rest = seq_min(s.drop_last());
        if s.last() < rest {
            s.last()
        } else {
            rest
        }
    }
}

/// The largest value of a sequence, `0` for an empty one.
pub open spec fn seq_max(s: Seq<u8>) -> u8
    decreases s.len(),
{
    if s.len() == 0 {
        0
    } else {
        let rest = seq_max(s.drop_last());
        if s.last() > rest {
            s.last()
        } else {
            rest
        }
    }
}

/// The sum of a sequence.
pub open spec fn seq_sum(s: Seq<u8>) -> nat
    decreases s.len(),
{
    if s.len() == 0 {
        0
    } else {
        seq_sum(s.drop_last()) + s.last() as nat
    }
}

/// How many values of a sequence are not zero.
pub open spec fn seq_nonzero(s: Seq<u8>) -> nat
    decreases s.len(),
{
    if s.len() == 0 {
        0
    } else {
        seq_nonzero(s.drop_last()) + if s.last() != 0 {
            1nat
        } else {
            0nat
        }
    }
}

/// The distance between sampled values for `sample_len` values: one per
/// 4096, at least every value.
pub open spec fn sample_step(sample_len: int) -> int {
    if sample_len / 4096 >= 1 {
        sample_len / 4096
    } else {
        1
    }
}

/// `count` samples `step` apart cover exactly the values below `sample_len`.
pub open spec fn covers(count: int, step: int, sample_len: int) -> bool {
    count * step >= sample_len && (count == 0 || (count - 1) * step < sample_len)
}

/// The first byte of each of the first `count` sampled values.
pub open spec fn sampled_values(data: Seq<u8>, bytes_per_sample: int, step: int, count: int) -> Seq<u8> {
    Seq::new(count as nat, |k: int| data[k * step * bytes_per_sample])
}

/// The statistics of a sample, with the mean in thousandths.
pub open spec fn stats_match(stats: TexturePlaneContentStats, values: Seq<u8>) -> bool {
    &&& stats.sample_count == values.len()
    &&& stats.min == seq_min(values)
    &&& stats.max == seq_max(values)
    &&& stats.nonzero_samples == seq_nonzero(values)
    &&& stats.mean_x1000 == (if values.len() == 0 {
        0
    } else {
        seq_sum(values) * 1000 / values.len()
    })
}

proof fn lemma_sum_bound(s: Seq<u8>)
    ensures
        seq_sum(s) <= 255 * s.len(),
        seq_nonzero(s) <= s.len(),
    decreases s.len(),
{
    if s.len() > 0 {
        lemma_sum_bound(s.drop_last());
    }
}

impl TexturePlaneContentStats {
    /// The stats of a plane whose content the CPU cannot read.
    pub fn unreadable(format: &'static str) -> (stats: Self)
        ensures
            stats.format == format,
            !stats.readable,
            !stats.data_present,
            stats.width == 0 && stats.height == 0 && stats.len == 0,
            stats.updated@ == "n/a"@,
            stats.sample_count == 0 && stats.min == 0 && stats.max == 0,
            stats.mean_x1000 == 0 && stats.nonzero_samples == 0,
    {
        TexturePlaneContentStats {
            format,
            readable: false,
            data_present: false,
            width: 0,
            height: 0,
            len: 0,
            updated: "n/a",
            sample_count: 0,
            min: 0,
            max: 0,
            mean_x1000: 0,
            nonzero_samples: 0,
        }
    }
}

/// The content stats of a CPU plane of `width` x `height` whose samples are
/// `bytes_per_sample` bytes apart (at least one): `data` absent gives no
/// samples; otherwise every `step`-th sample's first byte is read, `step`
/// being one per 4096 samples (at least one).
pub fn compute_u8_plane_content_stats(
    format: &'static str,
    width: usize,
    height: usize,
    data: Option<&Vec<u8>>,
    bytes_per_sample: usize,
    updated: TextureUpdateExtent,
) -> (stats: TexturePlaneContentStats)
    ensures
        stats.format == format,
        stats.readable,
        stats.width == width && stats.height == height,
        stats.updated@ == texture_updated_label_spec(updated),
        match data {
            None => {
                &&& !stats.data_present
                &&& stats.len == 0
                &&& stats.sample_count == 0 && stats.min == 0 && stats.max == 0
                &&& stats.mean_x1000 == 0 && stats.nonzero_samples == 0
            },
            Some(d) => {
                let bps: int = if bytes_per_sample >= 1 {
                    bytes_per_sample as int
                } else {
                    1
                };
                let sample_len = (d@.len() as int) / bps;
                &&& stats.data_present
                &&& stats.len == d@.len()
                &&& sample_len == 0 ==> (stats.sample_count == 0 && stats.min == 0 && stats.max == 0
                    && stats.mean_x1000 == 0 && stats.nonzero_samples == 0)
                &&& sample_len > 0 ==> {
                    let step = sample_step(sample_len);
                    covers(stats.sample_count as int, step, sample_len) && stats_match(
                        stats,
                        sampled_values(d@, bps, step, stats.sample_count as int),
                    )
                }
            },
        },
{
    let label = texture_updated_label(updated);
    let data = match data {
        Some(d) => d,
        None => {
            return TexturePlaneContentStats {
                format,
                readable: true,
                data_present: false,
                width,
                height,
                len: 0,
                updated: label,
                sample_count: 0,
                min: 0,
                max: 0,
                mean_x1000: 0,
                nonzero_samples: 0,
            };
        },
    };
    let bps = if bytes_per_sample >= 1 {
        bytes_per_sample
    } else {
        1
    };
    let len = data.len();
    let sample_len = len / bps;
    if sample_len == 0 {
        return TexturePlaneContentStats {
            format,
            readable: true,
            data_present: true,
            width,
            height,
            len,
            updated: label,
            sample_count: 0,
            min: 0,
            max: 0,
            mean_x1000: 0,
            nonzero_samples: 0,
        };
    }
    let step = if sample_len / 4096 >= 1 {
        sample_len / 4096
    } else {
        1
    };
    let ghost values = Seq::<u8>::empty();
    let mut min_value: u8 = 255;
    let mut max_value: u8 = 0;
    let mut sum: u128 = 0;
    let mut count: usize = 0;
    let mut nonzero: usize = 0;
    let mut index: usize = 0;
    let mut done = false;
    while !done
        invariant
            len == data@.len(),
            bps >= 1,
            sample_len == len / bps,
            sample_len > 0,
            step >= 1,
            step == sample_step(sample_len as int),
            count <= sample_len,
            !done ==> index == count * step && index < sample_len,
            done ==> covers(count as int, step as int, sample_len as int),
            count > 0 ==> (count - 1) * step < sample_len,
            values == sampled_values(data@, bps as int, step as int, count as int),
            min_value == seq_min(values),
            max_value == seq_max(values),
            sum == seq_sum(values),
            nonzero == seq_nonzero(values),
        decreases sample_len - count, if done { 0int } else { 1int },
    {
        proof {
            assert(index * bps + bps <= len) by (nonlinear_arith)
                requires
                    index < sample_len,
                    sample_len == len / bps,
                    bps >= 1,
            ;
            assert((index * bps) as int == count * step * bps) by (nonlinear_arith)
                requires
                    index == count * step,
            ;
            lemma_sum_bound(values);
        }
        let value = data[index * bps];
        let ghost next = values.push(value);
        proof {
            assert(next =~= sampled_values(data@, bps as int, step as int, count + 1));
            assert(next.drop_last() =~= values);
        }
        if value < min_value {
            min_value = value;
        }
        if value > max_value {
            max_value = value;
        }
        assert(count <= index) by (nonlinear_arith)
            requires
                index == count * step,
                step >= 1,
        ;
        sum = sum + value as u128;
        if value != 0 {
            nonzero = nonzero + 1;
        }
        proof {
            values = next;
        }
        let old_count = count;
        count = count + 1;
        if step >= sample_len - index {
            done = true;
            proof {
                assert(covers(count as int, step as int, sample_len as int)) by (nonlinear_arith)
                    requires
                        index == old_count * step,
                        count == old_count + 1,
                        step >= sample_len - index,
                        index < sample_len,
                ;
            }
        } else {
            index = index + step;
            proof {
                assert(index == count * step) by (nonlinear_arith)
                    requires
                        index == old_count * step + step,
                        count == old_count + 1,
                ;
                assert(count <= sample_len) by (nonlinear_arith)
                    requires
                        index == count * step,
                        index < sample_len,
                        step >= 1,
                        count >= 1,
                ;
            }
        }
    }
    proof {
        lemma_sum_bound(values);
        assert(sum * 1000 <= 255000 * count) by (nonlinear_arith)
            requires
                sum <= 255 * count,
        ;
        assert(sum * 1000 / (count as int) <= 255000) by (nonlinear_arith)
            requires
                sum * 1000 <= 255000 * count,
                count >= 1,
        ;
    }
    let total: u128 = sum * 1000;
    let mean: u128 = total / (count as u128);
    TexturePlaneContentStats {
        format,
        readable: true,
        data_present: true,
        width,
        height,
        len,
        updated: label,
        sample_count: count,
        min: min_value,
        max: max_value,
        mean_x1000: mean as u32,
        nonzero_samples: nonzero,
    }
}


/// One `<prefix><name>=<value>` marker field.
pub open spec fn prefixed_field(prefix: Seq<char>, name: Seq<char>, value: Seq<char>) -> Seq<char> {
    prefix + name + "="@ + value
}

/// The marker fields of a content probe, each name behind `prefix`.
pub open spec fn content_stats_fields_spec(stats: TexturePlaneContentStats, prefix: Seq<char>) -> Seq<char> {
    prefixed_field(prefix, "Format"@, stats.format@) + " "@
        + prefixed_field(prefix, "Readable"@, bool_text(stats.readable)) + " "@
        + prefixed_field(prefix, "DataPresent"@, bool_text(stats.data_present)) + " "@
        + prefixed_field(prefix, "Width"@, dec_nat(stats.width as nat)) + " "@
        + prefixed_field(prefix, "Height"@, dec_nat(stats.height as nat)) + " "@
        + prefixed_field(prefix, "Len"@, dec_nat(stats.len as nat)) + " "@
        + prefixed_field(prefix, "Updated"@, stats.updated@) + " "@
        + prefixed_field(prefix, "SampleCount"@, dec_nat(stats.sample_count as nat)) + " "@
        + prefixed_field(prefix, "Min"@, dec_nat(stats.min as nat)) + " "@
        + prefixed_field(prefix, "Max"@, dec_nat(stats.max as nat)) + " "@
        + prefixed_field(prefix, "MeanX1000"@, dec_nat(stats.mean_x1000 as nat)) + " "@
        + prefixed_field(prefix, "NonZeroSamples"@, dec_nat(stats.nonzero_samples as nat))
}

fn push_text_field(out: &mut String, prefix: &str, name: &str, value: &str)
    ensures
        final(out)@ == old(out)@ + prefixed_field(prefix@, name@, value@),
{
    out.append(prefix);
    out.append(name);
    out.append("=");
    out.append(value);
    proof {
        assert(out@ =~= old(out)@ + prefixed_field(prefix@, name@, value@));
    }
}

fn push_u64_field(out: &mut String, prefix: &str, name: &str, value: u64)
    ensures
        final(out)@ == old(out)@ + prefixed_field(prefix@, name@, dec_nat(value as nat)),
{
    out.append(prefix);
    out.append(name);
    out.append("=");
    push_u64(out, value);
    proof {
        assert(out@ =~= old(out)@ + prefixed_field(prefix@, name@, dec_nat(value as nat)));
    }
}

fn push_bool_field(out: &mut String, prefix: &str, name: &str, value: bool)
    ensures
        final(out)@ == old(out)@ + prefixed_field(prefix@, name@, bool_text(value)),
{
    out.append(prefix);
    out.append(name);
    out.append("=");
    push_bool(out, value);
    proof {
        assert(out@ =~= old(out)@ + prefixed_field(prefix@, name@, bool_text(value)));
    }
}

impl TexturePlaneContentStats {
    /// The marker fields of the probe, each name behind `prefix`.
    pub fn marker_fields(&self, prefix: &str) -> (fields: String)
        ensures
            fields@ == content_stats_fields_spec(*self, prefix@),
    {
        let mut out = String::new();
        push_text_field(&mut out, prefix, "Format", self.format);
        assert(out@ =~= prefixed_field(prefix@, "Format"@, self.format@));
        out.append(" ");
        push_bool_field(&mut out, prefix, "Readable", self.readable);
        out.append(" ");
        push_bool_field(&mut out, prefix, "DataPresent", self.data_present);
        out.append(" ");
        push_u64_field(&mut out, prefix, "Width", self.width as u64);
        out.append(" ");
        push_u64_field(&mut out, prefix, "Height", self.height as u64);
        out.append(" ");
        push_u64_field(&mut out, prefix, "Len", self.len as u64);
        out.append(" ");
        push_text_field(&mut out, prefix, "Updated", self.updated);
        out.append(" ");
        push_u64_field(&mut out, prefix, "SampleCount", self.sample_count as u64);
        out.append(" ");
        push_u64_field(&mut out, prefix, "Min", self.min as u64);
        out.append(" ");
        push_u64_field(&mut out, prefix, "Max", self.max as u64);
        out.append(" ");
        push_u64_field(&mut out, prefix, "MeanX1000", self.mean_x1000 as u64);
        out.append(" ");
        push_u64_field(&mut out, prefix, "NonZeroSamples", self.nonzero_samples as u64);
        out
    }
}

} // verus!
