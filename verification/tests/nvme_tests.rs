use vfio_pci::codec::CodecError;
use vfio_pci::nvme::{
    AdminQueueConfig, ArbitrationMechanismSelected, CommandSetSelected, ControllerConfiguration,
    ControllerStatus, NvmeCapabilities, NvmeController, NvmeError, NvmeRegister, NvmeVersion,
    ShutdownNotification, ShutdownStatus, WaitTarget, WaitVerdict,
};

/// A cooperative in-memory register file standing in for the MMIO window.
struct FakeRegs {
    cc: u32,
    csts: u32,
    aqa: u32,
    asq: u64,
    acq: u64,
}

impl FakeRegs {
    fn new() -> Self {
        FakeRegs { cc: 0, csts: 0, aqa: 0, asq: 0, acq: 0 }
    }

    fn apply(&mut self, reg: NvmeRegister, value: u64) {
        match reg {
            NvmeRegister::Cc => self.cc = value as u32,
            NvmeRegister::Aqa => self.aqa = value as u32,
            NvmeRegister::Asq => self.asq = value,
            NvmeRegister::Acq => self.acq = value,
            _ => {}
        }
    }
}

#[test]
fn aqa_encoding_for_default_depths() {
    let admin = AdminQueueConfig::new(32, 16, 0x1000, 0x2000);
    assert_eq!(admin.aqa_value(), 0x000F_001F);
}

#[test]
fn admin_queue_setup_readback() {
    let admin = AdminQueueConfig::new(32, 16, 0x0012_3000, 0x0045_6000);
    let controller = NvmeController::new(admin);
    assert_eq!(controller.asq_tail, 0);
    assert_eq!(controller.acq_head, 0);
    let writes = admin.setup_writes();
    assert_eq!(writes.len(), 3);
    assert_eq!(writes[0].reg, NvmeRegister::Aqa);
    assert_eq!(writes[1].reg, NvmeRegister::Asq);
    assert_eq!(writes[2].reg, NvmeRegister::Acq);
    let mut regs = FakeRegs::new();
    for w in &writes {
        regs.apply(w.reg, w.value);
    }
    assert_eq!(regs.aqa, 0x000F_001F);
    assert_eq!(regs.asq, 0x0012_3000);
    assert_eq!(regs.acq, 0x0045_6000);
}

#[test]
fn cap_decode_and_reencode() {
    // MPSMAX=4, MPSMIN=0, DSTRD=0, TO=0x40, CQR=1, MQES=0x3FFF.
    let raw: u64 = (4u64 << 52) | (0x40u64 << 24) | (1u64 << 16) | 0x3FFF;
    let cap = NvmeCapabilities::from_raw(raw);
    assert_eq!(cap.mpsmax, 4);
    assert_eq!(cap.mpsmin, 0);
    assert_eq!(cap.dstrd, 0);
    assert_eq!(cap.to, 0x40);
    assert!(cap.cqr);
    assert_eq!(cap.mqes, 0x3FFF);
    assert!(!cap.cmbs);
    assert!(!cap.pmrs);
    assert_eq!(cap.into_raw(), raw);
    assert_eq!(cap.timeout_ms(), 0x40 * 500);
    assert_eq!(cap.poll_budget(), 0x40 * 50);
}

#[test]
fn version_decode() {
    let v = NvmeVersion::from_raw(0x0001_0401);
    assert_eq!(v.major, 1);
    assert_eq!(v.minor, 4);
    assert_eq!(v.tertiary, 1);
    assert_eq!(v.into_raw(), 0x0001_0401);
}

#[test]
fn cc_codec_roundtrip() {
    let raw: u32 = (0x44u32 << 16) | (1 << 14) | (3 << 7) | 1;
    let cc = ControllerConfiguration::from_raw(raw).unwrap();
    assert_eq!(cc.iocqes, 4);
    assert_eq!(cc.iosqes, 4);
    assert_eq!(cc.shn, ShutdownNotification::Normal);
    assert_eq!(cc.ams, ArbitrationMechanismSelected::RoundRobin);
    assert_eq!(cc.mps, 3);
    assert_eq!(cc.css, CommandSetSelected::NVMCommandSet);
    assert!(cc.en);
    assert_eq!(cc.into_raw(), raw);
}

#[test]
fn cc_decode_rejects_undefined_shn() {
    let raw: u32 = 3 << 14;
    assert_eq!(ControllerConfiguration::from_raw(raw), Err(CodecError::UnknownDiscriminant));
}

#[test]
fn csts_codec_roundtrip() {
    let raw: u32 = (2 << 2) | 1;
    let s = ControllerStatus::from_raw(raw).unwrap();
    assert!(s.rdy);
    assert!(!s.cfs);
    assert_eq!(s.shst, ShutdownStatus::ShutdownComplete);
    assert_eq!(s.shst.text(), "Shutdown Complete");
    assert_eq!(s.into_raw(), raw);
    assert_eq!(ControllerStatus::from_raw(3 << 2), Err(CodecError::UnknownDiscriminant));
}

#[test]
fn lifecycle_on_cooperative_register_file() {
    let admin = AdminQueueConfig::new(32, 16, 0x1000, 0x2000);
    let nvme = NvmeController::new(admin);
    let mut regs = FakeRegs::new();

    // Enable: CC.EN set, queue entry sizes chosen.
    regs.cc = nvme.enable_controller(regs.cc).unwrap();
    assert_eq!(regs.cc & 1, 1);
    assert_eq!((regs.cc >> 16) & 0xf, 4);
    assert_eq!((regs.cc >> 20) & 0xf, 4);

    // The controller comes up; the poll observes RDY flip to one.
    assert_eq!(nvme.wait_step(WaitTarget::Ready, regs.csts, 100), Ok(WaitVerdict::Poll));
    regs.csts = 1;
    assert_eq!(nvme.wait_step(WaitTarget::Ready, regs.csts, 99), Ok(WaitVerdict::Done));
    assert_eq!(nvme.ready(regs.csts), Ok(true));

    // Enabling twice is refused with no state change.
    assert_eq!(nvme.enable_controller(regs.cc), Err(NvmeError::AlreadyEnabled));

    // Shutdown: CC.SHN = normal, then SHST reaches shutdown complete.
    regs.cc = nvme.shutdown_controller(regs.cc).unwrap();
    assert_eq!((regs.cc >> 14) & 3, 1);
    regs.csts = (2 << 2) | 1;
    assert_eq!(
        nvme.wait_step(WaitTarget::ShutdownComplete, regs.csts, 100),
        Ok(WaitVerdict::Done)
    );

    // Disable: CC.EN cleared, then RDY drops.
    regs.cc = nvme.disable_controller(regs.cc).unwrap();
    assert_eq!(regs.cc & 1, 0);
    assert_eq!(nvme.wait_step(WaitTarget::Stopped, regs.csts, 100), Ok(WaitVerdict::Poll));
    regs.csts = 2 << 2;
    assert_eq!(nvme.wait_step(WaitTarget::Stopped, regs.csts, 99), Ok(WaitVerdict::Done));

    // Enabling again succeeds; disabling from disabled is refused.
    assert!(nvme.enable_controller(regs.cc).is_ok());
    assert_eq!(nvme.disable_controller(regs.cc), Err(NvmeError::AlreadyDisabled));
}

#[test]
fn wait_times_out_with_no_budget() {
    let admin = AdminQueueConfig::new(32, 16, 0x1000, 0x2000);
    let nvme = NvmeController::new(admin);
    assert_eq!(nvme.wait_step(WaitTarget::Ready, 0, 0), Err(NvmeError::Timeout));
}

#[test]
fn register_offsets() {
    assert_eq!(NvmeRegister::Cap.offset(), 0x00);
    assert_eq!(NvmeRegister::Vs.offset(), 0x08);
    assert_eq!(NvmeRegister::Cc.offset(), 0x14);
    assert_eq!(NvmeRegister::Csts.offset(), 0x1c);
    assert_eq!(NvmeRegister::Aqa.offset(), 0x24);
    assert_eq!(NvmeRegister::Asq.offset(), 0x28);
    assert_eq!(NvmeRegister::Acq.offset(), 0x30);
}
