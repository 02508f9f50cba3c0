use microseh::{Arch, Exception, ExceptionCode, Registers};

#[test]
fn x86_snapshot_reads_eax() {
    let mut ctx: Vec<u64> = vec![0; 10];
    ctx[0] = 0xbadc0de;
    ctx[8] = 0x40_1000;
    ctx[9] = 0x246;
    let s = Registers::capture(Arch::X86, &ctx).unwrap();
    let e = Exception::from_fault(0xC000_001D, Some(s));
    assert_eq!(e.code(), ExceptionCode::IllegalInstruction);
    let r = e.registers().unwrap();
    assert_eq!(r.eax(), Some(0xbadc0de));
    assert_eq!(r.eip(), Some(0x40_1000));
    assert_eq!(r.eflags(), Some(0x246));
    assert_eq!(r.rax(), None);
}

#[test]
fn x64_snapshot_reads_each_register() {
    let ctx: Vec<u64> = (0..18).map(|i| 100 + i as u64).collect();
    let s = Registers::capture(Arch::X64, &ctx).unwrap();
    assert_eq!(s.arch(), Arch::X64);
    assert_eq!(s.values(), &ctx[..]);
    assert_eq!(s.rax(), Some(100));
    assert_eq!(s.rsp(), Some(107));
    assert_eq!(s.r8(), Some(108));
    assert_eq!(s.r15(), Some(115));
    assert_eq!(s.rip(), Some(116));
    assert_eq!(s.eflags(), Some(117));
    assert_eq!(s.eax(), None);
    assert_eq!(s.x(0), None);
}

#[test]
fn arm64_snapshot_reads_x0() {
    let mut ctx: Vec<u64> = vec![0; 34];
    ctx[0] = 0xbadc0debabefffff;
    ctx[30] = 0x30;
    ctx[31] = 0x31;
    ctx[32] = 0x32;
    ctx[33] = 0x33;
    let s = Registers::capture(Arch::Arm64, &ctx).unwrap();
    assert_eq!(s.x(0), Some(0xbadc0debabefffff));
    assert_eq!(s.x(30), Some(0x30));
    assert_eq!(s.x(31), None);
    assert_eq!(s.sp(), Some(0x31));
    assert_eq!(s.pc(), Some(0x32));
    assert_eq!(s.cpsr(), Some(0x33));
    assert_eq!(s.eflags(), None);
}

#[test]
fn capture_refuses_wrong_length() {
    assert!(Registers::capture(Arch::X64, &[0u64; 17]).is_none());
    assert!(Registers::capture(Arch::Arm64, &[]).is_none());
    assert!(Registers::capture(Arch::X86, &[0u64; 18]).is_none());
}

#[test]
fn capture_refuses_wide_x86_value() {
    let mut ctx: Vec<u64> = vec![0; 10];
    ctx[3] = 0x1_0000_0000;
    assert!(Registers::capture(Arch::X86, &ctx).is_none());
    ctx[3] = 0xFFFF_FFFF;
    assert_eq!(Registers::capture(Arch::X86, &ctx).unwrap().edx(), Some(0xFFFF_FFFF));
}

#[test]
fn snapshot_clone_is_equal() {
    let ctx: Vec<u64> = (0..34).collect();
    let s = Registers::capture(Arch::Arm64, &ctx).unwrap();
    assert_eq!(s.clone(), s);
}
