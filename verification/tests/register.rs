use riscv_clic::register::mcountinhibit::{clear_hpm, set_hpm, Mcountinhibit};
use riscv_clic::register::mintstatus::Mintstatus;
use riscv_clic::register::mintthresh::Mintthresh;
use riscv_clic::register::mtvec::{self, Mtvec, SubMode, TrapMode};
use riscv_clic::register::mtvt::{self, Mtvt};

#[test]
fn mtvec_write_vectored_reads_back() {
    let csr = mtvec::write(0x1000, TrapMode::Vectored);
    assert_eq!(csr.bits(), 0x1001);
    assert_eq!(csr.trap_mode(), Some(TrapMode::Vectored));
    assert_eq!(csr.address(), 0x1000);
}

#[test]
fn mtvec_write_direct_reads_back() {
    let csr = mtvec::write(0x8000_0000, TrapMode::Direct);
    assert_eq!(csr.bits(), 0x8000_0000);
    assert_eq!(csr.trap_mode(), Some(TrapMode::Direct));
    assert_eq!(csr.address(), 0x8000_0000);
}

#[test]
fn mtvec_misaligned_address_is_masked_on_read() {
    let csr = mtvec::write(0x1003, TrapMode::Direct);
    assert_eq!(csr.bits(), 0x1003);
    assert_eq!(csr.address(), 0x1000);
    // The low bits of the address have landed in the mode field.
    assert_eq!(csr.trap_mode(), None);
}

#[test]
fn mtvec_misaligned_address_corrupts_the_mode() {
    // 0x1003 + 1 carries out of the mode field.
    let csr = mtvec::write(0x1003, TrapMode::Vectored);
    assert_eq!(csr.bits(), 0x1004);
    assert_eq!(csr.address(), 0x1004);
    assert_eq!(csr.trap_mode(), Some(TrapMode::Direct));
    let csr = mtvec::write(0x1001, TrapMode::Vectored);
    assert_eq!(csr.bits(), 0x1002);
    assert_eq!(csr.address(), 0x1000);
    assert_eq!(csr.trap_mode(), None);
}

#[test]
fn mtvec_trap_mode_decodes_each_encoding() {
    assert_eq!(Mtvec::<false>::from_bits(0x100).trap_mode(), Some(TrapMode::Direct));
    assert_eq!(Mtvec::<false>::from_bits(0x101).trap_mode(), Some(TrapMode::Vectored));
    assert_eq!(Mtvec::<false>::from_bits(0x102).trap_mode(), None);
    assert_eq!(Mtvec::<false>::from_bits(0x103).trap_mode(), None);
    assert_eq!(Mtvec::<true>::from_bits(0x100).trap_mode(), Some(TrapMode::Direct));
    assert_eq!(Mtvec::<true>::from_bits(0x101).trap_mode(), Some(TrapMode::Vectored));
    assert_eq!(Mtvec::<true>::from_bits(0x102).trap_mode(), None);
    assert_eq!(Mtvec::<true>::from_bits(0x103).trap_mode(), Some(TrapMode::Clic));
}

#[test]
fn mtvec_address_masks_two_or_six_bits() {
    assert_eq!(Mtvec::<false>::from_bits(0x10FF).address(), 0x10FC);
    assert_eq!(Mtvec::<true>::from_bits(0x10FF).address(), 0x10C0);
    assert_eq!(Mtvec::<false>::from_bits(usize::MAX).address(), usize::MAX - 3);
    assert_eq!(Mtvec::<true>::from_bits(usize::MAX).address(), usize::MAX - 63);
    assert_eq!(Mtvec::<false>::from_bits(0).address(), 0);
    assert_eq!(Mtvec::<true>::from_bits(3).address(), 0);
    assert_eq!(Mtvec::<false>::from_bits(0x10FF).bits(), 0x10FF);
}

#[test]
fn mtvec_sub_mode_decodes_zero_only() {
    assert_eq!(Mtvec::<true>::from_bits(0x1003).sub_mode(), Some(SubMode::Default));
    assert_eq!(Mtvec::<true>::from_bits(0x1043).sub_mode(), Some(SubMode::Default));
    assert_eq!(Mtvec::<true>::from_bits(0x1007).sub_mode(), None);
    assert_eq!(Mtvec::<true>::from_bits(0x103F).sub_mode(), None);
    assert_eq!(Mtvec::<true>::from_bits(0x1020).sub_mode(), None);
}

#[test]
fn mtvec_clic_write_reads_back() {
    let csr = mtvec::clic::write(0x1000, SubMode::Default, TrapMode::Clic);
    assert_eq!(csr.bits(), 0x1003);
    assert_eq!(csr.trap_mode(), Some(TrapMode::Clic));
    assert_eq!(csr.sub_mode(), Some(SubMode::Default));
    assert_eq!(csr.address(), 0x1000);
    let csr = mtvec::clic::write(0x1000, SubMode::Default, TrapMode::Vectored);
    assert_eq!(csr.bits(), 0x1001);
    assert_eq!(csr.trap_mode(), Some(TrapMode::Vectored));
    assert_eq!(csr.address(), 0x1000);
}

#[test]
fn mtvec_clic_misaligned_address_is_masked_on_read() {
    let csr = mtvec::clic::write(0x1003, SubMode::Default, TrapMode::Vectored);
    assert_eq!(csr.bits(), 0x1004);
    assert_eq!(csr.address(), 0x1000);
    assert_eq!(csr.trap_mode(), Some(TrapMode::Direct));
    assert_eq!(csr.sub_mode(), None);
}

#[test]
fn mode_encodings() {
    assert_eq!(TrapMode::Direct.bits(), 0);
    assert_eq!(TrapMode::Vectored.bits(), 1);
    assert_eq!(TrapMode::Clic.bits(), 3);
    assert_eq!(SubMode::Default.bits(), 0);
}

#[test]
fn mintthresh_get_thresh_is_the_low_byte() {
    assert_eq!(Mintthresh::new(0x1234).get_thresh(), 0x34);
    assert_eq!(Mintthresh::new(0x1234).bits(), 0x1234);
    assert_eq!(Mintthresh::new(usize::MAX).get_thresh(), 0xFF);
    assert_eq!(Mintthresh::new(0xF00).get_thresh(), 0);
}

#[test]
fn mintthresh_set_thresh_keeps_the_upper_bits() {
    let mut csr = Mintthresh::new(0x1234);
    csr.set_thresh(0xAB);
    assert_eq!(csr.bits(), 0x12AB);
    assert_eq!(csr.get_thresh(), 0xAB);
    csr.set_thresh(0);
    assert_eq!(csr.bits(), 0x1200);
    csr.set_thresh(255);
    assert_eq!(csr.bits(), 0x12FF);
    let mut csr = Mintthresh::new(usize::MAX);
    csr.set_thresh(1);
    assert_eq!(csr.bits(), usize::MAX - 0xFE);
}

#[test]
fn mtvt_base_is_the_whole_word() {
    let csr = Mtvt::new(0x2000_0040);
    assert_eq!(csr.bits(), 0x2000_0040);
    assert_eq!(csr.get_base(), 0x2000_0040);
    assert_eq!(Mtvt::new(usize::MAX).get_base(), usize::MAX);
    assert_eq!(Mtvt::new(0).get_base(), 0);
}

#[test]
fn mtvt_set_base_replaces_the_word() {
    let mut csr = Mtvt::new(0x1234);
    csr.set_base(0x2000_0040);
    assert_eq!(csr.bits(), 0x2000_0040);
    assert_eq!(csr.get_base(), 0x2000_0040);
    csr.set_base(usize::MAX);
    assert_eq!(csr.bits(), usize::MAX);
    csr.set_base(0);
    assert_eq!(csr.bits(), 0);
}

#[test]
fn mtvt_write_addr_gives_the_address() {
    assert_eq!(mtvt::write_addr(0x2000_0040).bits(), 0x2000_0040);
    assert_eq!(mtvt::write_addr(0x2000_0040).get_base(), 0x2000_0040);
}

#[test]
fn mintstatus_levels() {
    let csr = Mintstatus::from_bits(0xAB12_CD34);
    assert_eq!(csr.bits(), 0xAB12_CD34);
    assert_eq!(csr.mil(), 0xAB);
    assert_eq!(csr.sil(), 0xCD);
    assert_eq!(csr.uil(), 0x34);
    let csr = Mintstatus::from_bits(0x00FF_00FF);
    assert_eq!(csr.mil(), 0);
    assert_eq!(csr.sil(), 0);
    assert_eq!(csr.uil(), 0xFF);
}

#[test]
fn mcountinhibit_flags() {
    let csr = Mcountinhibit::from_bits(0b101);
    assert!(csr.cy());
    assert!(csr.ir());
    assert!(!csr.hpm(3));
    let csr = Mcountinhibit::from_bits(0b010);
    assert!(!csr.cy());
    assert!(!csr.ir());
    let csr = Mcountinhibit::from_bits(0x8000_0008);
    assert!(!csr.cy());
    assert!(!csr.ir());
    assert!(csr.hpm(3));
    assert!(!csr.hpm(4));
    assert!(!csr.hpm(30));
    assert!(csr.hpm(31));
}

#[test]
fn hpm_set_and_clear() {
    assert_eq!(set_hpm(0, 3), 0b1000);
    assert_eq!(set_hpm(0b101, 31), 0x8000_0005);
    assert_eq!(set_hpm(0b1000, 3), 0b1000);
    assert_eq!(clear_hpm(0b1101, 3), 0b0101);
    assert_eq!(clear_hpm(0x8000_0005, 31), 0b101);
    assert_eq!(clear_hpm(0b101, 4), 0b101);
    let after = Mcountinhibit::from_bits(set_hpm(0, 17));
    assert!(after.hpm(17));
    assert!(!after.hpm(16));
    assert!(!Mcountinhibit::from_bits(clear_hpm(usize::MAX, 17)).hpm(17));
    assert!(Mcountinhibit::from_bits(clear_hpm(usize::MAX, 17)).hpm(18));
}
