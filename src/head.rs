use vstd::prelude::*;

verus! {

/// The per-link header as the engine lays it out: its fields, and a channel
/// mapping table of fixed capacity of which only a prefix is meaningful.
pub struct NativeHead {
    pub version: i32,
    pub channel_count: i32,
    pub pre_skip: u32,
    pub input_sample_rate: u32,
    pub output_gain: i32,
    pub mapping_family: i32,
    pub stream_count: i32,
    pub coupled_count: i32,
    pub mapping: [u8; 255],
}

/// The length of the meaningful channel mapping: two entries for each coupled
/// stream and one for each uncoupled one.
pub open spec fn mapping_len(stream_count: int, coupled_count: int) -> int {
    2 * coupled_count + (stream_count - coupled_count)
}

impl NativeHead {
    /// The stream counts are as the engine guarantees them: no more coupled
    /// streams than streams, and a mapping that fits the native table.
    pub open spec fn wf(&self) -> bool {
        &&& 0 <= self.coupled_count <= self.stream_count
        &&& mapping_len(self.stream_count as int, self.coupled_count as int) <= 255
    }

    /// Whether the stream counts are consistent, as `wf` says.
    pub fn is_consistent(&self) -> (r: bool)
        ensures
            r == self.wf(),
    {
        0 <= self.coupled_count && self.coupled_count <= self.stream_count
            && self.stream_count <= 255 - self.coupled_count
    }
}

/// An owned snapshot of one link's header.
#[derive(Clone, PartialEq, Eq, Debug)]
pub struct OpusHead {
    pub mapping: Vec<u8>,
    pub version: i32,
    pub pre_skip: i32,
    pub input_sample_rate: u32,
    pub output_gain: i32,
    pub mapping_family: i32,
    pub channel_count: u8,
    pub stream_count: u8,
    pub coupled_count: u8,
}

impl OpusHead {
    /// The mapping holds exactly the entries that the stream counts call for,
    /// at most 255 of them.
    pub open spec fn wf(&self) -> bool {
        &&& self.coupled_count <= self.stream_count
        &&& self.mapping@.len() == mapping_len(self.stream_count as int, self.coupled_count as int)
        &&& self.mapping@.len() <= 255
    }

    /// Copies the engine's header into an owned value, taking only the
    /// meaningful prefix of the mapping table.
    pub fn from_native(h: &NativeHead) -> (r: OpusHead)
        requires
            h.wf(),
        ensures
            r.wf(),
            r.mapping@ == h.mapping@.subrange(
                0,
                mapping_len(h.stream_count as int, h.coupled_count as int),
            ),
            r.version == h.version,
            r.channel_count == h.channel_count as u8,
            r.pre_skip == h.pre_skip as i32,
            r.input_sample_rate == h.input_sample_rate,
            r.output_gain == h.output_gain,
            r.mapping_family == h.mapping_family,
            r.stream_count as int == h.stream_count as int,
            r.coupled_count as int == h.coupled_count as int,
    {
        let n: usize = (2 * h.coupled_count + (h.stream_count - h.coupled_count)) as usize;
        let mut mapping: Vec<u8> = Vec::new();
        let mut i: usize = 0;
        while i < n
            invariant
                i <= n,
                n as int == mapping_len(h.stream_count as int, h.coupled_count as int),
                n <= 255,
                mapping@ == h.mapping@.subrange(0, i as int),
            decreases n - i,
        {
            mapping.push(h.mapping[i]);
            i = i + 1;
        }
        OpusHead {
            mapping,
            version: h.version,
            pre_skip: #[verifier::truncate] (h.pre_skip as i32),
            input_sample_rate: h.input_sample_rate,
            output_gain: h.output_gain,
            mapping_family: h.mapping_family,
            channel_count: #[verifier::truncate] (h.channel_count as u8),
            stream_count: h.stream_count as u8,
            coupled_count: h.coupled_count as u8,
        }
    }
}

} // verus!
