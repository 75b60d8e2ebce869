use std::cell::Cell;

use kernel::hil::gpio::Output;
use kernel::hil::spi::cs::{ActiveHigh, ActiveLow, ChipSelectPolar, IntoChipSelect, Polarity};
use kernel::hil::wifi_cyw43::{Passphrase, Security, Ssid};
use kernel::hil::wifinina::Network;

struct Pin(Cell<bool>);

impl Output for Pin {
    fn set(&self) {
        self.0.set(true)
    }

    fn clear(&self) {
        self.0.set(false)
    }

    fn toggle(&self) -> bool {
        self.0.set(!self.0.get());
        self.0.get()
    }
}

#[test]
fn chip_select_levels_follow_polarity() {
    let pin = Pin(Cell::new(false));
    let low: ChipSelectPolar<Pin> = IntoChipSelect::<_, ActiveLow>::into_cs(&pin);
    assert_eq!(low.polarity, Polarity::Low);
    low.activate();
    assert!(!pin.0.get());
    low.deactivate();
    assert!(pin.0.get());

    let high: ChipSelectPolar<Pin> = IntoChipSelect::<_, ActiveHigh>::into_cs(&pin);
    assert_eq!(high.polarity, Polarity::High);
    high.activate();
    assert!(pin.0.get());
    high.deactivate();
    assert!(!pin.0.get());
}

#[test]
fn wifi_defaults() {
    assert_eq!(Security::default(), Security::Wpa2Wpa3);
    let ssid = Ssid::default();
    assert_eq!(ssid.len, 0);
    assert!(ssid.buf.iter().all(|b| *b == 0));
    assert_eq!(Passphrase::default().len, 0);
    let network = Network::default();
    assert_eq!(network.rssi, 0);
    assert!(network.security.is_none());
}
