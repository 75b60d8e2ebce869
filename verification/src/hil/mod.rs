//! Hardware interface layer.

pub mod time;
pub mod uart;
pub mod gpio;
pub mod spi;
pub mod sixlowpan;
pub mod storage_interface;
pub mod temp;
pub mod temperature;
pub mod text_screen;
pub mod watchdog;
pub mod touch;
pub mod usb;
pub mod usb_hid;
pub mod wifi;
pub mod symmetric_encryption;
pub mod wifi_cyw43;
pub mod wifinina;
