use cdtoc::bitfield::AdrCtrl;
use cdtoc::endian::Endian;
use cdtoc::layout::{CdToc, CdTocEntry, CdromAddr, CdromMsf0, LbaMsf};
use cdtoc::layout::{CDTE_ADDR, CDTE_ADDR_SIZE, CDTE_ADR_CTRL, CDTE_DATAMODE, CDTE_FORMAT};
use cdtoc::layout::{CDTE_SIZE, CDTE_TRACK, CDTH_SIZE};

fn lba_entry(lba: i32) -> CdTocEntry {
    CdTocEntry {
        cdte_track: 3,
        cdte_adr_ctrl: AdrCtrl(0x41),
        cdte_addr: CdromAddr::Lba(lba),
        cdte_datamode: 7,
    }
}

#[test]
fn record_sizes_and_offsets() {
    assert_eq!(CDTH_SIZE, 2);
    assert_eq!(CDTE_SIZE, 12);
    assert_eq!(CDTE_TRACK, 0);
    assert_eq!(CDTE_ADR_CTRL, 1);
    assert_eq!(CDTE_FORMAT, 2);
    assert_eq!(CDTE_ADDR, 4);
    assert_eq!(CDTE_ADDR_SIZE, 4);
    assert_eq!(CDTE_DATAMODE, 8);
    assert_eq!(CdToc::default().to_bytes().len(), CDTH_SIZE);
    assert_eq!(CdTocEntry::default().to_bytes(Endian::Little).len(), CDTE_SIZE);
}

#[test]
fn format_codes() {
    assert_eq!(LbaMsf::Lba.code(), 1);
    assert_eq!(LbaMsf::Msf.code(), 2);
    assert_eq!(LbaMsf::from_code(1), Some(LbaMsf::Lba));
    assert_eq!(LbaMsf::from_code(2), Some(LbaMsf::Msf));
    assert_eq!(LbaMsf::from_code(0), None);
    assert_eq!(LbaMsf::from_code(3), None);
    assert_eq!(LbaMsf::from_code(255), None);
}

#[test]
fn defaults_are_zeroed() {
    assert_eq!(CdToc::default(), CdToc { cdth_trk0: 0, cdth_trk1: 0 });
    assert_eq!(LbaMsf::default(), LbaMsf::Lba);
    assert_eq!(CdromAddr::default(), CdromAddr::Lba(0));
    assert_eq!(
        CdTocEntry::default(),
        CdTocEntry {
            cdte_track: 0,
            cdte_adr_ctrl: AdrCtrl(0),
            cdte_addr: CdromAddr::Lba(0),
            cdte_datamode: 0,
        }
    );
    assert_eq!(CdToc::default().to_bytes(), [0, 0]);
    assert_eq!(CdTocEntry::default().to_bytes(Endian::Big), [0, 0, 1, 0, 0, 0, 0, 0, 0, 0, 0, 0]);
}

#[test]
fn header_bytes() {
    let header = CdToc { cdth_trk0: 1, cdth_trk1: 12 };
    assert_eq!(header.to_bytes(), [1, 12]);
    assert_eq!(CdToc::from_bytes(&[1, 12]), header);
    assert_eq!(CdToc::from_bytes(&[9, 2]), CdToc { cdth_trk0: 9, cdth_trk1: 2 });
}

#[test]
fn address_knows_its_format() {
    let lba = CdromAddr::Lba(1234);
    let msf = CdromAddr::Msf(CdromMsf0 { minute: 1, second: 2, frame: 3 });
    assert_eq!(lba.format(), LbaMsf::Lba);
    assert_eq!(msf.format(), LbaMsf::Msf);
    assert_eq!(lba.lba(), Some(1234));
    assert_eq!(lba.msf(), None);
    assert_eq!(msf.lba(), None);
    assert_eq!(msf.msf(), Some(CdromMsf0 { minute: 1, second: 2, frame: 3 }));
    assert_eq!(CdromAddr::zeroed(LbaMsf::Lba), CdromAddr::Lba(0));
    assert_eq!(
        CdromAddr::zeroed(LbaMsf::Msf),
        CdromAddr::Msf(CdromMsf0 { minute: 0, second: 0, frame: 0 })
    );
}

#[test]
fn address_bytes() {
    let msf = CdromAddr::Msf(CdromMsf0 { minute: 1, second: 2, frame: 3 });
    assert_eq!(msf.to_bytes(Endian::Little), [1, 2, 3, 0]);
    assert_eq!(msf.to_bytes(Endian::Big), [1, 2, 3, 0]);
    assert_eq!(CdromAddr::Lba(1234).to_bytes(Endian::Little), [0xD2, 0x04, 0, 0]);
    assert_eq!(CdromAddr::Lba(1234).to_bytes(Endian::Big), [0, 0, 0x04, 0xD2]);
    assert_eq!(
        CdromAddr::from_bytes(LbaMsf::Msf, &[1, 2, 3, 99], Endian::Little),
        CdromAddr::Msf(CdromMsf0 { minute: 1, second: 2, frame: 3 })
    );
    assert_eq!(
        CdromAddr::from_bytes(LbaMsf::Lba, &[1, 2, 3, 0], Endian::Little),
        CdromAddr::Lba(0x0003_0201)
    );
    assert_eq!(
        CdromAddr::from_bytes(LbaMsf::Lba, &[1, 2, 3, 0], Endian::Big),
        CdromAddr::Lba(0x0102_0300)
    );
}

#[test]
fn logical_block_entry_reports_its_block() {
    let entry = lba_entry(1234);
    assert_eq!(entry.cdte_format(), LbaMsf::Lba);
    assert_eq!(entry.cdte_addr.lba(), Some(1234));
    assert_eq!(entry.cdte_addr.msf(), None);
    for endian in [Endian::Little, Endian::Big] {
        let read = CdTocEntry::from_bytes(&entry.to_bytes(endian), endian);
        assert_eq!(read, Some(entry));
        assert_eq!(read.unwrap().cdte_addr, CdromAddr::Lba(1234));
    }
}

#[test]
fn entry_bytes_little_endian() {
    assert_eq!(
        lba_entry(1234).to_bytes(Endian::Little),
        [3, 0x41, 1, 0, 0xD2, 0x04, 0, 0, 7, 0, 0, 0]
    );
    let padded = [3, 0x41, 1, 0xAA, 0xD2, 0x04, 0, 0, 7, 0xBB, 0xCC, 0xDD];
    assert_eq!(CdTocEntry::from_bytes(&padded, Endian::Little), Some(lba_entry(1234)));
}

#[test]
fn entry_bytes_big_endian() {
    assert_eq!(
        lba_entry(1234).to_bytes(Endian::Big),
        [3, 0x41, 1, 0, 0, 0, 0x04, 0xD2, 7, 0, 0, 0]
    );
    assert_eq!(
        CdTocEntry::from_bytes(&[3, 0x41, 1, 0, 0, 0, 0x04, 0xD2, 7, 0, 0, 0], Endian::Big),
        Some(lba_entry(1234))
    );
}

#[test]
fn entry_bytes_minutes_seconds_frames() {
    let entry = CdTocEntry {
        cdte_track: 9,
        cdte_adr_ctrl: AdrCtrl(0x14),
        cdte_addr: CdromAddr::Msf(CdromMsf0 { minute: 12, second: 34, frame: 56 }),
        cdte_datamode: 0,
    };
    assert_eq!(entry.cdte_format(), LbaMsf::Msf);
    for endian in [Endian::Little, Endian::Big] {
        assert_eq!(entry.to_bytes(endian), [9, 0x14, 2, 0, 12, 34, 56, 0, 0, 0, 0, 0]);
        assert_eq!(CdTocEntry::from_bytes(&entry.to_bytes(endian), endian), Some(entry));
    }
}

#[test]
fn format_byte_selects_the_member_that_is_read() {
    let as_lba = [1, 0, 1, 0, 12, 34, 56, 0, 0, 0, 0, 0];
    let as_msf = [1, 0, 2, 0, 12, 34, 56, 0, 0, 0, 0, 0];
    let lba = CdTocEntry::from_bytes(&as_lba, Endian::Little).unwrap();
    let msf = CdTocEntry::from_bytes(&as_msf, Endian::Little).unwrap();
    assert_eq!(lba.cdte_addr, CdromAddr::Lba(12 + 34 * 256 + 56 * 65536));
    assert_eq!(msf.cdte_addr, CdromAddr::Msf(CdromMsf0 { minute: 12, second: 34, frame: 56 }));
    assert_eq!(lba.cdte_addr.msf(), None);
    assert_eq!(msf.cdte_addr.lba(), None);
}

#[test]
fn unknown_format_byte_is_rejected() {
    for code in [0u8, 3, 4, 0x80, 0xFF] {
        let bytes = [1, 0, code, 0, 0, 0, 0, 0, 0, 0, 0, 0];
        assert_eq!(CdTocEntry::from_bytes(&bytes, Endian::Little), None);
        assert_eq!(CdTocEntry::from_bytes(&bytes, Endian::Big), None);
    }
}

#[test]
fn negative_block_address_round_trips() {
    for endian in [Endian::Little, Endian::Big] {
        for lba in [-150, -1, i32::MIN, i32::MAX, 0] {
            let entry = lba_entry(lba);
            assert_eq!(CdTocEntry::from_bytes(&entry.to_bytes(endian), endian), Some(entry));
        }
    }
    assert_eq!(
        lba_entry(-150).to_bytes(Endian::Little),
        [3, 0x41, 1, 0, 0x6A, 0xFF, 0xFF, 0xFF, 7, 0, 0, 0]
    );
}
