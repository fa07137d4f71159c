//! Tests of the fdc module

use ezpc::components::fdc::{CMD_RECALIBRATE, CMD_SEEK, CMD_SENSE_INTERRUPT, CMD_SPECIFY, DOR_DMA_ENABLE, DOR_MOTOR_A, DOR_MOTOR_B, DOR_RESET, FDC_DATA, FDC_DIR, FDC_DOR, Fdc, FdcPhase, MSR_RQM, ST0_DS_MASK, ST0_IC_ABNORMAL, ST0_IC_INVALID, ST0_IC_MASK, ST0_IC_READY_CHANGE, ST0_SE, ST1_ND};

#[test]
fn test_fdc_new() {
    let fdc = Fdc::new();
    assert_eq!(fdc.phase, FdcPhase::Idle);
    assert_eq!(fdc.dor, 0);
    assert!(!fdc.irq_pending);
}

#[test]
fn test_msr_in_reset() {
    let fdc = Fdc::new();
    // Controller starts in reset (DOR bit 2 = 0)
    assert_eq!(fdc.dor & DOR_RESET, 0);
    assert_eq!(fdc.build_msr(), 0);
}

#[test]
fn test_msr_after_reset_release() {
    let mut fdc = Fdc::new();
    // Release reset
    fdc.write_u8(FDC_DOR, DOR_RESET);
    // MSR should show RQM (ready)
    assert_eq!(fdc.build_msr() & MSR_RQM, MSR_RQM);
}

#[test]
fn test_dor_motor_control() {
    let mut fdc = Fdc::new();
    fdc.write_u8(FDC_DOR, DOR_RESET | DOR_MOTOR_A | DOR_MOTOR_B);

    assert!(fdc.drives[0].motor_on);
    assert!(fdc.drives[1].motor_on);
    assert!(!fdc.drives[2].motor_on);
    assert!(!fdc.drives[3].motor_on);
}

#[test]
fn test_reset_generates_interrupts() {
    let mut fdc = Fdc::new();
    // Start in reset
    assert_eq!(fdc.dor & DOR_RESET, 0);

    // Exit reset
    fdc.write_u8(FDC_DOR, DOR_RESET | DOR_DMA_ENABLE);

    // Should have 4 pending interrupts (one per drive)
    assert_eq!(fdc.pending_interrupts.len(), 4);
    assert!(fdc.irq_pending);
}

#[test]
fn test_specify_command() {
    let mut fdc = Fdc::new();
    fdc.write_u8(FDC_DOR, DOR_RESET);

    // Send Specify command: SRT=8, HUT=0, HLT=1, ND=0
    fdc.write_u8(FDC_DATA, CMD_SPECIFY);
    fdc.write_u8(FDC_DATA, 0x80); // SRT=8, HUT=0
    fdc.write_u8(FDC_DATA, 0x02); // HLT=1, ND=0

    assert_eq!(fdc.phase, FdcPhase::Idle);
    assert_eq!(fdc.step_rate_time, 8);
    assert_eq!(fdc.head_unload_time, 0);
    assert_eq!(fdc.head_load_time, 1);
    assert!(!fdc.non_dma_mode);
}

#[test]
fn test_recalibrate_command() {
    let mut fdc = Fdc::new();
    fdc.write_u8(FDC_DOR, DOR_RESET | DOR_DMA_ENABLE);

    // Clear reset interrupts
    fdc.pending_interrupts.clear();
    fdc.irq_pending = false;

    // Set drive 0 to cylinder 10
    fdc.drives[0].cylinder = 10;

    // Send Recalibrate command for drive 0
    fdc.write_u8(FDC_DATA, CMD_RECALIBRATE);
    fdc.write_u8(FDC_DATA, 0x00); // Drive 0

    // Head should be at track 0
    assert_eq!(fdc.drives[0].cylinder, 0);

    // Should have generated an interrupt
    assert!(fdc.irq_pending);
    assert_eq!(fdc.pending_interrupts.len(), 1);

    // Verify interrupt status
    let (st0, cyl) = fdc.pending_interrupts[0];
    assert_eq!(st0 & ST0_SE, ST0_SE); // Seek End
    assert_eq!(st0 & ST0_DS_MASK, 0); // Drive 0
    assert_eq!(cyl, 0); // Cylinder 0
}

#[test]
fn test_seek_command() {
    let mut fdc = Fdc::new();
    fdc.write_u8(FDC_DOR, DOR_RESET | DOR_DMA_ENABLE);

    // Clear reset interrupts
    fdc.pending_interrupts.clear();
    fdc.irq_pending = false;

    // Send Seek command for drive 0 to cylinder 20
    fdc.write_u8(FDC_DATA, CMD_SEEK);
    fdc.write_u8(FDC_DATA, 0x00); // Drive 0
    fdc.write_u8(FDC_DATA, 20); // Cylinder 20

    // Head should be at track 20
    assert_eq!(fdc.drives[0].cylinder, 20);
    assert!(fdc.irq_pending);
}

#[test]
fn test_sense_interrupt_status() {
    let mut fdc = Fdc::new();
    fdc.write_u8(FDC_DOR, DOR_RESET | DOR_DMA_ENABLE);

    // Should have 4 pending interrupts from reset
    assert_eq!(fdc.pending_interrupts.len(), 4);

    // Read all 4 with Sense Interrupt Status
    for i in 0..4 {
        fdc.write_u8(FDC_DATA, CMD_SENSE_INTERRUPT);
        assert_eq!(fdc.phase, FdcPhase::Result);

        let st0 = fdc.read_u8(FDC_DATA);
        let _cyl = fdc.read_u8(FDC_DATA);

        // Should be Ready Changed status for each drive
        assert_eq!(st0 & ST0_IC_MASK, ST0_IC_READY_CHANGE);
        assert_eq!(st0 & ST0_DS_MASK, i);
    }

    // No more pending interrupts
    assert!(!fdc.irq_pending);
    assert!(fdc.pending_interrupts.is_empty());
}

#[test]
fn test_sense_interrupt_no_pending() {
    let mut fdc = Fdc::new();
    fdc.write_u8(FDC_DOR, DOR_RESET);
    fdc.pending_interrupts.clear();

    // Sense Interrupt with no pending interrupt
    fdc.write_u8(FDC_DATA, CMD_SENSE_INTERRUPT);

    // Should return invalid command status
    let st0 = fdc.read_u8(FDC_DATA);
    assert_eq!(st0, ST0_IC_INVALID);
}

#[test]
fn test_read_data_no_disk() {
    let mut fdc = Fdc::new();
    fdc.write_u8(FDC_DOR, DOR_RESET | DOR_DMA_ENABLE);
    fdc.pending_interrupts.clear();

    // Send Read Data command (0xE6 = MT+MF+SK+READ)
    fdc.write_u8(FDC_DATA, 0xE6);
    fdc.write_u8(FDC_DATA, 0x00); // Drive 0, Head 0
    fdc.write_u8(FDC_DATA, 0); // Cylinder
    fdc.write_u8(FDC_DATA, 0); // Head
    fdc.write_u8(FDC_DATA, 1); // Sector
    fdc.write_u8(FDC_DATA, 2); // Sector size (512)
    fdc.write_u8(FDC_DATA, 9); // EOT
    fdc.write_u8(FDC_DATA, 0x1B); // GPL
    fdc.write_u8(FDC_DATA, 0xFF); // DTL

    // Should be in result phase with error
    assert_eq!(fdc.phase, FdcPhase::Result);

    // Read result bytes
    let st0 = fdc.read_u8(FDC_DATA);
    let st1 = fdc.read_u8(FDC_DATA);
    let _st2 = fdc.read_u8(FDC_DATA);

    // Should report abnormal termination with No Data
    assert_eq!(st0 & ST0_IC_MASK, ST0_IC_ABNORMAL);
    assert_eq!(st1 & ST1_ND, ST1_ND);
}

#[test]
fn test_invalid_command() {
    let mut fdc = Fdc::new();
    fdc.write_u8(FDC_DOR, DOR_RESET);

    // Send invalid command
    fdc.write_u8(FDC_DATA, 0x1F); // Invalid opcode

    // Should return invalid status
    let st0 = fdc.read_u8(FDC_DATA);
    assert_eq!(st0, ST0_IC_INVALID);
}

#[test]
fn test_dma_capable_no_transfer() {
    let fdc = Fdc::new();
    assert!(!fdc.dma_dreq());
}

#[test]
fn test_dir_disk_changed() {
    let mut fdc = Fdc::new();
    fdc.write_u8(FDC_DOR, DOR_RESET);

    // Drives start with disk_changed = true
    let dir = fdc.read_u8(FDC_DIR);
    assert_eq!(dir & 0x80, 0x80);

    // Clear disk changed flag
    fdc.drives[0].disk_changed = false;
    let dir = fdc.read_u8(FDC_DIR);
    assert_eq!(dir & 0x80, 0x00);
}
