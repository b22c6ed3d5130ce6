use eth_driver::config::Config;
use eth_driver::gpio::{AnyPin, Bank, Level, NoPin, Pull};
use eth_driver::pins::{alternate_function, PinFunction, Signal};

#[test]
fn pin_identifier_round_trip() {
    let p = AnyPin::new(Bank::Bank0, 17);
    assert_eq!(p.pin_bank(), 17);
    assert_eq!(p.pin(), 17);
    assert_eq!(p.bank(), Bank::Bank0);
    let q = AnyPin::new(Bank::Qspi, 5);
    assert_eq!(q.pin_bank(), 37);
    assert_eq!(q.pin(), 5);
    assert_eq!(q.bank(), Bank::Qspi);
    let r = AnyPin::new(Bank::Qspi, 31);
    assert_eq!(r.pin_bank(), 63);
    assert_eq!(r.pin(), 31);
}

#[test]
fn pin_enums_compare() {
    assert_ne!(Level::Low, Level::High);
    assert_ne!(Pull::Up, Pull::Down);
    assert_ne!(Pull::Floating, Pull::Up);
    let _ = NoPin;
    let _ = Config::default();
}

#[test]
fn alternate_function_table_lookup() {
    let table = [
        PinFunction { pin_bank: 1, signal: Signal::RefClk, af: 11 },
        PinFunction { pin_bank: 2, signal: Signal::Mdio, af: 11 },
        PinFunction { pin_bank: 2, signal: Signal::Rxd0, af: 5 },
        PinFunction { pin_bank: 2, signal: Signal::Mdio, af: 7 },
    ];
    assert_eq!(alternate_function(&table, 1, Signal::RefClk), Some(11));
    assert_eq!(alternate_function(&table, 2, Signal::Rxd0), Some(5));
    assert_eq!(alternate_function(&table, 2, Signal::Mdio), Some(11));
    assert_eq!(alternate_function(&table, 1, Signal::Mdc), None);
    assert_eq!(alternate_function(&[], 1, Signal::TxEn), None);
}
