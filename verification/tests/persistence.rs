use pulsegen_core::store::{
    encode_record, erase_sector, read_record, write_record, PersistedRecord, Sector, DATA_MAGIC,
    ERASED_WORD, RECORD_WORDS,
};

#[test]
fn layout_is_magic_gains_then_ticks() {
    let r = PersistedRecord {
        kp_bits: 1.5f32.to_bits(),
        ki_bits: 0.25f32.to_bits(),
        kd_bits: (-2.0f32).to_bits(),
        control_ticks: 0x1234_5678_9ABC_DEF0,
    };
    let words = encode_record(&r);
    assert_eq!(words.len(), RECORD_WORDS);
    assert_eq!(words[0], 0x444E4A4E);
    assert_eq!(words[0], DATA_MAGIC);
    assert_eq!(words[1], 1.5f32.to_bits());
    assert_eq!(words[2], 0.25f32.to_bits());
    assert_eq!(words[3], (-2.0f32).to_bits());
    assert_eq!(words[4], 0x1234_5678);
    assert_eq!(words[5], 0x9ABC_DEF0);
}

#[test]
fn round_trip_is_bit_identical() {
    let cases = [
        (100.0f32, 0.0f32, 0.0f32, 64_000u64),
        (1.25f32, -3.5f32, 7.75e-3f32, u64::MAX),
        (f32::MIN_POSITIVE, f32::MAX, -0.0f32, 0u64),
    ];
    for (kp, ki, kd, ticks) in cases {
        let r = PersistedRecord {
            kp_bits: kp.to_bits(),
            ki_bits: ki.to_bits(),
            kd_bits: kd.to_bits(),
            control_ticks: ticks,
        };
        let mut sector = Sector::new_erased(64);
        write_record(&mut sector, &r);
        let back = read_record(&sector).expect("a written record must read back");
        assert_eq!(back.kp_bits, kp.to_bits());
        assert_eq!(back.ki_bits, ki.to_bits());
        assert_eq!(back.kd_bits, kd.to_bits());
        assert_eq!(back.control_ticks, ticks);
        assert_eq!(f32::from_bits(back.kp_bits), kp);
        assert_eq!(f32::from_bits(back.ki_bits), ki);
        assert_eq!(f32::from_bits(back.kd_bits), kd);
    }
}

#[test]
fn bad_magic_reads_as_no_record() {
    let r = PersistedRecord {
        kp_bits: 7,
        ki_bits: 8,
        kd_bits: 9,
        control_ticks: 10,
    };
    let mut sector = Sector::new_erased(8);
    write_record(&mut sector, &r);
    // Corrupt only the magic word: whatever the payload words hold, the
    // record is distrusted as a whole.
    sector.words[0] = DATA_MAGIC ^ 1;
    assert!(read_record(&sector).is_none());
    sector.words[0] = 0;
    assert!(read_record(&sector).is_none());
    sector.words[0] = ERASED_WORD;
    assert!(read_record(&sector).is_none());
}

#[test]
fn erased_sector_holds_no_record() {
    let mut sector = Sector::new_erased(16);
    assert!(read_record(&sector).is_none());
    let r = PersistedRecord {
        kp_bits: 1,
        ki_bits: 2,
        kd_bits: 3,
        control_ticks: 4,
    };
    write_record(&mut sector, &r);
    assert!(read_record(&sector).is_some());
    // The torn-write window: erased but not yet programmed means no
    // trusted record, and defaults are kept on the next boot.
    erase_sector(&mut sector);
    assert!(read_record(&sector).is_none());
    assert!(sector.words.iter().all(|w| *w == ERASED_WORD));
}
