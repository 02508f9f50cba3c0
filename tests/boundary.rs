use microseh::{settle, call_outcome, Arch, Exception, ExceptionCode, Registers, MS_CAUGHT, MS_SUCCEEDED};

fn x64_context(rax: u64) -> Vec<u64> {
    let mut ctx: Vec<u64> = (0..18).map(|i| 0x1000 + i as u64).collect();
    ctx[0] = rax;
    ctx
}

#[test]
fn success_returns_integer() {
    let r = settle(MS_SUCCEEDED, Exception::empty(), Some(1337));
    assert_eq!(r, Some(Ok(1337)));
}

#[test]
fn success_returns_str_and_unit() {
    let b = settle(MS_SUCCEEDED, Exception::empty(), Some("hello"));
    assert_eq!(b.unwrap().unwrap(), "hello");
    let c = settle(MS_SUCCEEDED, Exception::empty(), Some(()));
    let v = c.unwrap().unwrap();
    assert_eq!(core::mem::size_of_val(&v), 0x0);
}

#[test]
fn success_returns_owned_value_unchanged() {
    let s = String::from("protected");
    let r = settle(MS_SUCCEEDED, Exception::empty(), Some(s.clone()));
    assert_eq!(r, Some(Ok(s)));
}

#[test]
fn access_violation_is_reported() {
    let rec = Exception::from_fault(0xC000_0005, None);
    let r = settle(MS_CAUGHT, rec, None::<u32>);
    let e = r.unwrap().unwrap_err();
    assert_eq!(e.code(), ExceptionCode::AccessViolation);
    assert!(e.registers().is_none());
}

#[test]
fn breakpoint_is_reported() {
    let rec = Exception::from_fault(0x8000_0003, None);
    let e = settle(MS_CAUGHT, rec, None::<()>).unwrap().unwrap_err();
    assert_eq!(e.code(), ExceptionCode::Breakpoint);
}

#[test]
fn illegal_instruction_keeps_registers() {
    let regs = Registers::capture(Arch::X64, &x64_context(0xBADC0DE));
    let rec = Exception::from_fault(0xC000_001D, regs);
    let e = settle(MS_CAUGHT, rec, None::<u32>).unwrap().unwrap_err();
    assert_eq!(e.code(), ExceptionCode::IllegalInstruction);
    assert_eq!(e.registers().unwrap().rax(), Some(0xBADC0DE));
}

#[test]
fn illegal_instruction_keeps_wide_register() {
    let regs = Registers::capture(Arch::X64, &x64_context(0xbadc0debabefffff));
    let e = settle(MS_CAUGHT, Exception::from_fault(0xC000_001D, regs), None::<u32>)
        .unwrap()
        .unwrap_err();
    assert_eq!(e.registers().unwrap().rax(), Some(0xbadc0debabefffff));
}

#[test]
fn fault_drops_filled_slot() {
    let rec = Exception::from_fault(0xC000_0094, None);
    let r = settle(MS_CAUGHT, rec.clone(), Some(7u32));
    assert_eq!(r, Some(Err(rec)));
}

#[test]
fn nested_fault_is_ordinary_value() {
    let inner = settle(MS_CAUGHT, Exception::from_fault(0xC000_0005, None), None::<u32>).unwrap();
    let outer = settle(MS_SUCCEEDED, Exception::empty(), Some(inner.clone())).unwrap();
    let got = outer.unwrap();
    assert_eq!(got, inner);
    assert_eq!(got.unwrap_err().code(), ExceptionCode::AccessViolation);
}

#[test]
fn undefined_status_is_protocol_violation() {
    assert_eq!(call_outcome(2, Exception::from_fault(0xC000_0005, None)), None);
    assert_eq!(settle(0xFFFF_FFFF, Exception::empty(), Some(1u8)), None);
}

#[test]
fn caught_with_unfilled_record_is_protocol_violation() {
    assert_eq!(call_outcome(MS_CAUGHT, Exception::empty()), None);
    assert_eq!(settle(MS_CAUGHT, Exception::empty(), None::<u8>), None);
}

#[test]
fn success_without_value_is_protocol_violation() {
    assert_eq!(settle(MS_SUCCEEDED, Exception::empty(), None::<u8>), None);
}

#[test]
fn call_outcome_reads_status() {
    assert_eq!(call_outcome(MS_SUCCEEDED, Exception::empty()), Some(Ok(())));
    let rec = Exception::from_fault(0xC000_00FD, None);
    assert_eq!(call_outcome(MS_CAUGHT, rec.clone()), Some(Err(rec)));
}
