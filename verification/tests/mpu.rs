use kernel::platform::chip::{ClockInterface, NoClockControl};
use kernel::platform::mpu::{Permissions, Region, MPU};
use kernel::platform::platform::{UpcallAction, UpcallVerifier};
use kernel::platform::scheduler_timer::SchedulerTimer;
use kernel::platform::systick::SysTick;
use kernel::upcall::UpcallId;

#[test]
fn regions_hold_start_and_size() {
    let region = Region::new(0x2000_0000, 0x400);
    assert_eq!(region.start_address(), 0x2000_0000);
    assert_eq!(region.size(), 0x400);
}

#[test]
fn unit_mpu_allocates_what_fits() {
    let mpu = ();
    let mut config = mpu.new_config().unwrap();
    assert_eq!(mpu.number_total_regions(), 0);
    let region = mpu
        .allocate_region(0x1000, 0x100, 0x80, Permissions::ReadOnly, &mut config)
        .unwrap();
    assert_eq!(region, Region::new(0x1000, 0x80));
    assert!(mpu
        .allocate_region(0x1000, 0x100, 0x101, Permissions::ReadOnly, &mut config)
        .is_none());
    assert_eq!(
        mpu.allocate_app_memory_region(0x1000, 0x1000, 0x100, 0x200, 0x300, Permissions::ReadWriteOnly, &mut config),
        Some((0x1000, 0x500))
    );
    assert_eq!(
        mpu.allocate_app_memory_region(0x1000, 0x1000, 0x800, 0x200, 0x300, Permissions::ReadWriteOnly, &mut config),
        Some((0x1000, 0x800))
    );
    assert_eq!(
        mpu.allocate_app_memory_region(0x1000, 0x400, 0x100, 0x200, 0x300, Permissions::ReadWriteOnly, &mut config),
        None
    );
    assert_eq!(
        mpu.update_app_memory_region(0x2000, 0x1000, Permissions::ReadWriteOnly, &mut config),
        Err(())
    );
    assert_eq!(
        mpu.update_app_memory_region(0x1000, 0x2000, Permissions::ReadWriteOnly, &mut config),
        Ok(())
    );
    assert_eq!(mpu.remove_memory_region(region, &mut config), Ok(()));
}

#[test]
fn default_platform_hooks() {
    assert!(NoClockControl {}.is_enabled());
    assert_eq!(().get_remaining_us(), Some(10000));
    assert!(!SysTick::overflowed(&()));
    assert!(SysTick::greater_than(&(), 5));
    let upcall = UpcallId { driver_num: 1, subscribe_num: 0 };
    assert_eq!(().on_upcall(upcall, 1, 2, 3), UpcallAction::Proceed);
}
