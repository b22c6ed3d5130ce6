use eth_driver::mdio::{command_word, is_busy, ClockRange, ConfigError, MdioOp, SimulatedMii, Station};

#[test]
fn clock_range_table_edges() {
    assert_eq!(ClockRange::from_hclk_mhz(24), Err(ConfigError::HclkTooLow));
    assert_eq!(ClockRange::from_hclk_mhz(25), Ok(ClockRange::Div16));
    assert_eq!(ClockRange::from_hclk_mhz(34), Ok(ClockRange::Div16));
    assert_eq!(ClockRange::from_hclk_mhz(35), Ok(ClockRange::Div26));
    assert_eq!(ClockRange::from_hclk_mhz(59), Ok(ClockRange::Div26));
    assert_eq!(ClockRange::from_hclk_mhz(60), Ok(ClockRange::Div42));
    assert_eq!(ClockRange::from_hclk_mhz(99), Ok(ClockRange::Div42));
    assert_eq!(ClockRange::from_hclk_mhz(100), Ok(ClockRange::Div62));
    assert_eq!(ClockRange::from_hclk_mhz(149), Ok(ClockRange::Div62));
    assert_eq!(ClockRange::from_hclk_mhz(150), Ok(ClockRange::Div102));
    assert_eq!(ClockRange::from_hclk_mhz(216), Ok(ClockRange::Div102));
    assert_eq!(ClockRange::from_hclk_mhz(217), Err(ConfigError::HclkTooHigh));
    assert_eq!(ClockRange::from_hclk_mhz(0), Err(ConfigError::HclkTooLow));
}

#[test]
fn clock_range_from_hertz() {
    assert_eq!(ClockRange::from_hclk(168_000_000), Ok(ClockRange::Div102));
    assert_eq!(ClockRange::from_hclk(24_999_999), Err(ConfigError::HclkTooLow));
    assert_eq!(ClockRange::from_hclk(216_999_999), Ok(ClockRange::Div102));
    assert_eq!(ClockRange::from_hclk(217_000_000), Err(ConfigError::HclkTooHigh));
}

#[test]
fn clock_range_codes_and_dividers() {
    assert_eq!(ClockRange::Div42.code(), 0);
    assert_eq!(ClockRange::Div62.code(), 1);
    assert_eq!(ClockRange::Div16.code(), 2);
    assert_eq!(ClockRange::Div26.code(), 3);
    assert_eq!(ClockRange::Div102.code(), 4);
    assert_eq!(ClockRange::Div16.divider(), 16);
    assert_eq!(ClockRange::Div102.divider(), 102);
}

#[test]
fn control_word_layout() {
    // PHY 1, register 3, read, divider code 4, busy.
    let w = command_word(1, 3, MdioOp::Read, ClockRange::Div102);
    assert_eq!(w, (1 << 11) | (3 << 6) | (4 << 2) | 1);
    let w = command_word(1, 3, MdioOp::Write, ClockRange::Div102);
    assert_eq!(w, (1 << 11) | (3 << 6) | (4 << 2) | 2 | 1);
    // Only the low five bits of address and register count.
    assert_eq!(command_word(0x21, 0x3f, MdioOp::Read, ClockRange::Div42), (1 << 11) | (0x1f << 6) | 1);
    assert!(is_busy(w));
    assert!(!is_busy(w & !1));
}

#[test]
fn smi_write_then_read_returns_value() {
    let st = Station { phy_addr: 1, clock: ClockRange::Div102 };
    let mut mii = SimulatedMii::new(1);
    assert_eq!(mii.smi_write(&st, 3, 0x1234), Ok(()));
    assert_eq!(mii.smi_read(&st, 3), Ok(0x1234));
    assert_eq!(mii.smi_read(&st, 4), Ok(0));
    let expect_write: u32 = (1 << 11) | (3 << 6) | (4 << 2) | (1 << 1) | 1;
    let expect_read: u32 = (1 << 11) | (3 << 6) | (4 << 2) | 1;
    assert_eq!(mii.commands()[0], expect_write);
    assert_eq!(mii.commands()[1], expect_read);
    assert_eq!(mii.commands().len(), 3);
    assert!(!is_busy(mii.read_address()));
    assert_eq!(mii.phy_addr(), 1);
}

#[test]
fn smi_to_absent_phy_reads_all_ones() {
    let st = Station { phy_addr: 2, clock: ClockRange::Div26 };
    let mut mii = SimulatedMii::new(1);
    assert_eq!(mii.smi_write(&st, 3, 0x1234), Ok(()));
    assert_eq!(mii.smi_read(&st, 3), Ok(0xffff));
    let here = Station { phy_addr: 1, clock: ClockRange::Div26 };
    assert_eq!(mii.smi_read(&here, 3), Ok(0));
}

#[test]
fn station_command_matches_free_function() {
    let st = Station { phy_addr: 5, clock: ClockRange::Div62 };
    assert_eq!(st.command(31, MdioOp::Write), command_word(5, 31, MdioOp::Write, ClockRange::Div62));
    assert_eq!(st.command(31, MdioOp::Write), (5 << 11) | (31 << 6) | (1 << 2) | 3);
}

#[test]
fn raw_register_access() {
    let mut mii = SimulatedMii::new(0);
    mii.write_data(0xbeef);
    assert_eq!(mii.read_data(), 0xbeef);
    // Without the busy bit nothing runs.
    mii.write_address(7 << 6);
    assert_eq!(mii.read_address(), 7 << 6);
    mii.write_address((7 << 6) | 3);
    assert_eq!(mii.read_address(), (7 << 6) | 2);
    mii.write_data(0);
    mii.write_address((7 << 6) | 1);
    assert_eq!(mii.read_data(), 0xbeef);
}
