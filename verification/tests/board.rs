use cat_scale::accel::{
    accelerometer_settings, AccelSettings, DataRate, InitStep, InterruptMode, Mode, Progress, Range,
    ACCEL_ADDRESS, ACCEL_WHO_AM_I,
};
use cat_scale::leds::{Heartbeat, PanicBlink, PANIC_PIN};
use cat_scale::softdevice::{
    interrupt_priorities, softdevice_config, ClockAccuracy, ClockSource, Priority,
};
use cat_scale::usb::{
    setup_usb, softdevice_task, vbus_status, SocEvent, VbusReport, VbusStatus, BOS_DESC_LEN,
    CONFIG_DESC_LEN, CONTROL_BUF_LEN, LISTENER_MS, MSOS_DESC_LEN, USB_PACKAGE_SIZE,
};

#[test]
fn power_status_register() {
    for (register, usb_detected, power_ready) in [
        (0u32, false, false),
        (1, true, false),
        (2, false, true),
        (3, true, true),
        (0xFFFF_FFFC, false, false),
        (u32::MAX, true, true),
    ] {
        assert_eq!(
            vbus_status(register),
            VbusStatus {
                usb_detected,
                power_ready
            }
        );
    }
}

#[test]
fn power_events_are_forwarded() {
    assert_eq!(
        softdevice_task(SocEvent::PowerUsbDetected),
        Some(VbusReport::Detected { detected: true })
    );
    assert_eq!(
        softdevice_task(SocEvent::PowerUsbRemoved),
        Some(VbusReport::Detected { detected: false })
    );
    assert_eq!(
        softdevice_task(SocEvent::PowerUsbPowerReady),
        Some(VbusReport::Ready)
    );
    assert_eq!(softdevice_task(SocEvent::Other), None);
}

#[test]
fn usb_settings() {
    let settings = setup_usb();
    assert_eq!(settings.vendor_id, 0xc0de);
    assert_eq!(settings.product_id, 0xcafe);
    assert_eq!(settings.manufacturer, "Wumpftech");
    assert_eq!(settings.product, "Wumpftech Serial");
    assert_eq!(settings.serial_number, "wumpf1");
    assert_eq!(settings.max_packet_size_0, 64);
    assert_eq!(settings.max_packet_size_0 as usize, USB_PACKAGE_SIZE);
    assert_eq!(settings.serial_packet_size, 64);
    assert_eq!(
        [CONFIG_DESC_LEN, BOS_DESC_LEN, MSOS_DESC_LEN, CONTROL_BUF_LEN],
        [256, 256, 128, 128]
    );
    assert_eq!(LISTENER_MS, 1000);
}

#[test]
fn radio_settings() {
    let settings = softdevice_config();
    assert_eq!(settings.clock_source, ClockSource::Rc);
    assert_eq!(settings.clock_accuracy, ClockAccuracy::Ppm500);
    assert_eq!((settings.rc_ctiv, settings.rc_temp_ctiv), (16, 2));
    assert_eq!((settings.conn_count, settings.event_length), (6, 24));
    assert_eq!(settings.att_mtu, 256);
    assert_eq!(settings.attr_tab_size, None);
    assert_eq!(settings.adv_set_count, 1);
    assert_eq!(
        settings.periph_role_count + settings.central_role_count,
        settings.conn_count
    );
    assert_eq!(settings.periph_role_count, 3);
    assert_eq!(settings.central_sec_count, 0);
    assert_eq!(settings.device_name, "CatScales");
    assert_eq!(settings.device_name.as_bytes(), b"CatScales");
    assert_eq!(settings.device_name_len, 9);
    assert_eq!(settings.device_name_max_len, 9);
    assert!(!settings.device_name_writable);
    assert!(settings.device_name_in_stack);
    assert!(!settings.channel_survey);
}

#[test]
fn interrupts_leave_the_radio_alone() {
    let p = interrupt_priorities();
    for priority in [p.gpiote, p.time, p.usbd, p.twispi0, p.clock_power] {
        assert_eq!(priority, Priority::P2);
    }
}

#[test]
fn accelerometer() {
    assert_eq!(
        accelerometer_settings(),
        AccelSettings {
            address: 0x18,
            mode: Mode::LowPower,
            range: Range::G2,
            data_rate: DataRate::Hz1,
            interrupt_mode: InterruptMode::Movement,
            on_high: true,
            on_low: true,
            threshold_mg: 300,
            duration_ms: 0,
            latch: true,
            detect_4d: false,
            route_to_pin1: true,
        }
    );
    assert_eq!(
        accelerometer_settings().threshold_mg as f32 / 1000.0,
        0.3f32
    );
    assert_eq!(ACCEL_ADDRESS, 0x18);
    assert_eq!(ACCEL_WHO_AM_I, 0x0F);
}

const STEPS: [InitStep; 9] = [
    InitStep::Connect,
    InitStep::LedLow,
    InitStep::Mode,
    InitStep::Range,
    InitStep::DataRate,
    InitStep::InterruptSource,
    InitStep::InterruptDuration,
    InitStep::InterruptThreshold,
    InitStep::InterruptPin,
];

#[test]
fn accelerometer_steps_in_order() {
    let mut progress = Progress::start();
    for step in STEPS {
        assert_eq!(progress, Progress::Pending { step });
        progress = progress.next(true);
    }
    assert_eq!(progress, Progress::Ready);
    assert_eq!(progress.next(true), Progress::Ready);
    assert_eq!(progress.next(false), Progress::Ready);
}

#[test]
fn accelerometer_failure_is_final() {
    for (failed, step) in STEPS.into_iter().enumerate() {
        let mut progress = Progress::start();
        for _ in 0..failed {
            progress = progress.next(true);
        }
        progress = progress.next(false);
        assert_eq!(progress, Progress::Failed { step });
        assert_eq!(progress.next(true), Progress::Failed { step });
        assert_eq!(progress.next(false), Progress::Failed { step });
    }
}

#[test]
fn heartbeat_toggles_every_300_ms() {
    let mut step = Heartbeat::start();
    for _ in 0..10 {
        assert_eq!(step, Heartbeat::Toggle);
        step = step.next();
        assert_eq!(step, Heartbeat::Hold { ms: 300 });
        step = step.next();
    }
}

#[test]
fn panic_blinks_pin_26() {
    assert_eq!(PANIC_PIN, 26);
    let mut step = PanicBlink::start();
    for _ in 0..3 {
        assert_eq!(step, PanicBlink::High);
        step = step.next();
        assert_eq!(step, PanicBlink::HoldHigh { cycles: 1_000_000 });
        step = step.next();
        assert_eq!(step, PanicBlink::Low);
        step = step.next();
        assert_eq!(step, PanicBlink::HoldLow { cycles: 1_000_000 });
        step = step.next();
    }
}
