//! Non-volatile store: the fixed binary layout of the persisted tuning
//! record and its validation rule.
//!
//! A record occupies the first six 32-bit words of a dedicated sector:
//! a magic word, the IEEE-754 bit patterns of the three gains, and the
//! control interval in ticks split into an upper and a lower word.  A
//! record is trusted only if the first word equals the magic constant;
//! anything else means "no valid record".  Writing is erase-then-program:
//! the whole sector is erased, then the record is programmed in one pass.

use vstd::prelude::*;

verus! {

/// First word of a valid record.
pub const DATA_MAGIC: u32 = 0x444E4A4E;

/// Number of 32-bit words a record occupies at the sector base.
pub const RECORD_WORDS: usize = 6;

/// Value every word of an erased sector holds.
pub const ERASED_WORD: u32 = 0xFFFF_FFFF;

/// The tunable controller state as it is persisted: gains as raw IEEE-754
/// single-precision bit patterns, and the control interval in timer ticks.
pub struct PersistedRecord {
    pub kp_bits: u32,
    pub ki_bits: u32,
    pub kd_bits: u32,
    pub control_ticks: u64,
}

/// A fixed-size, independently erasable unit of non-volatile storage,
/// modelled as the sequence of 32-bit words it holds.
pub struct Sector {
    pub words: Vec<u32>,
}

impl Sector {
    /// A sector is large enough to hold one record.
    pub open spec fn wf(&self) -> bool {
        self.words@.len() >= RECORD_WORDS
    }

    /// A fully erased sector of `n` words.
    pub fn new_erased(n: usize) -> (s: Sector)
        requires
            n >= RECORD_WORDS,
        ensures
            s.wf(),
            s.words@.len() == n,
            forall|i: int| 0 <= i < n ==> s.words@[i] == ERASED_WORD,
    {
        let mut words: Vec<u32> = Vec::new();
        while words.len() < n
            invariant
                words@.len() <= n,
                forall|i: int| 0 <= i < words@.len() ==> words@[i] == ERASED_WORD,
            decreases n - words@.len(),
        {
            words.push(ERASED_WORD);
        }
        Sector { words }
    }
}

/// The control interval reassembled from its upper and lower words.
pub open spec fn spec_ticks_from_words(h: u32, l: u32) -> u64 {
    (((h as u64) << 32) + (l as u64)) as u64
}

/// The six words a record is laid out as, magic word first.
pub open spec fn spec_encode(r: PersistedRecord) -> Seq<u32> {
    seq![
        DATA_MAGIC,
        r.kp_bits,
        r.ki_bits,
        r.kd_bits,
        (r.control_ticks >> 32) as u32,
        (r.control_ticks & 0xFFFF_FFFF) as u32,
    ]
}

/// What reading the start of a sector yields: `None` whenever the first
/// word differs from the magic constant, the decoded record otherwise.
pub open spec fn spec_read(words: Seq<u32>) -> Option<PersistedRecord> {
    if words[0] != DATA_MAGIC {
        None
    } else {
        Some(PersistedRecord {
            kp_bits: words[1],
            ki_bits: words[2],
            kd_bits: words[3],
            control_ticks: spec_ticks_from_words(words[4], words[5]),
        })
    }
}

/// Reads the record at the base of `sector`.  Returns `None` exactly when
/// the magic word does not match; nothing of the caller's state is touched
/// on a mismatch.
pub fn read_record(sector: &Sector) -> (r: Option<PersistedRecord>)
    requires
        sector.wf(),
    ensures
        r == spec_read(sector.words@),
{
    if sector.words[0] != DATA_MAGIC {
        return None;
    }
    let h = sector.words[4];
    let l = sector.words[5];
    proof {
        assert(((h as u64) << 32) + (l as u64) <= u64::MAX) by (bit_vector);
    }
    Some(PersistedRecord {
        kp_bits: sector.words[1],
        ki_bits: sector.words[2],
        kd_bits: sector.words[3],
        control_ticks: ((h as u64) << 32) + (l as u64),
    })
}

/// Encodes `r` into the six words of its on-sector layout.
pub fn encode_record(r: &PersistedRecord) -> (words: Vec<u32>)
    ensures
        words@ == spec_encode(*r),
{
    let mut words: Vec<u32> = Vec::new();
    words.push(DATA_MAGIC);
    words.push(r.kp_bits);
    words.push(r.ki_bits);
    words.push(r.kd_bits);
    words.push((r.control_ticks >> 32) as u32);
    words.push((r.control_ticks & 0xFFFF_FFFF) as u32);
    proof {
        assert(words@ =~= spec_encode(*r));
    }
    words
}

/// Erases the whole sector: every word becomes [`ERASED_WORD`].  This is
/// the state a torn write leaves behind, and it never decodes as a record.
pub fn erase_sector(sector: &mut Sector)
    requires
        old(sector).wf(),
    ensures
        final(sector).wf(),
        final(sector).words@.len() == old(sector).words@.len(),
        forall|i: int| 0 <= i < final(sector).words@.len()
            ==> final(sector).words@[i] == ERASED_WORD,
        spec_read(final(sector).words@) is None,
{
    let n = sector.words.len();
    let erased = Sector::new_erased(n);
    sector.words = erased.words;
}

/// Erases the sector, then programs the full record in one pass.  The
/// record lands at the sector base; every word past it stays erased.
pub fn write_record(sector: &mut Sector, r: &PersistedRecord)
    requires
        old(sector).wf(),
    ensures
        final(sector).wf(),
        final(sector).words@.len() == old(sector).words@.len(),
        final(sector).words@.subrange(0, RECORD_WORDS as int) == spec_encode(*r),
        forall|i: int| RECORD_WORDS <= i < final(sector).words@.len()
            ==> final(sector).words@[i] == ERASED_WORD,
        spec_read(final(sector).words@) == Some(*r),
{
    let n = sector.words.len();
    erase_sector(sector);
    let mut programmed = encode_record(r);
    while programmed.len() < n
        invariant
            RECORD_WORDS <= programmed@.len(),
            programmed@.len() <= n,
            programmed@.subrange(0, RECORD_WORDS as int) == spec_encode(*r),
            forall|i: int| RECORD_WORDS <= i < programmed@.len()
                ==> programmed@[i] == ERASED_WORD,
        decreases n - programmed@.len(),
    {
        programmed.push(ERASED_WORD);
        proof {
            assert(programmed@.subrange(0, RECORD_WORDS as int) =~= spec_encode(*r));
        }
    }
    sector.words = programmed;
    proof {
        lemma_record_round_trip(*r);
        assert(sector.words@.subrange(0, RECORD_WORDS as int) =~= spec_encode(*r));
        assert(sector.words@[0] == spec_encode(*r)[0]);
        assert(sector.words@[4] == spec_encode(*r)[4]);
        assert(sector.words@[5] == spec_encode(*r)[5]);
    }
}

/// A sector whose first word is not the magic constant never yields a
/// record, whatever the remaining words hold.
pub proof fn lemma_reject_bad_magic(words: Seq<u32>)
    requires
        words[0] != DATA_MAGIC,
    ensures
        spec_read(words) is None,
{
}

/// Round trip: decoding the words a record encodes to yields that record
/// back, bit-identical, for every gain bit pattern and tick count.
pub proof fn lemma_record_round_trip(r: PersistedRecord)
    ensures
        spec_read(spec_encode(r)) == Some(r),
{
    let t = r.control_ticks;
    assert(spec_ticks_from_words((t >> 32) as u32, (t & 0xFFFF_FFFF) as u32) == t)
        by (bit_vector);
}

} // verus!
