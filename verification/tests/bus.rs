use car_core::bus::{write_reg, CarI2c, RegisterWrite, Transaction, I2C_ADDR};

#[test]
fn peripheral_address_is_fixed() {
    assert_eq!(I2C_ADDR, 0x30);
}

#[test]
fn new_bus_has_nothing_queued() {
    let bus = CarI2c::new();
    assert!(bus.pending().is_empty());
    assert_eq!(bus.last_written(0x01), None);
}

#[test]
fn write_reg_queues_in_order() {
    let mut bus = CarI2c::new();
    write_reg(&mut bus, 0x02, 90);
    write_reg(&mut bus, 0x07, 255);
    write_reg(&mut bus, 0x02, 0);
    assert_eq!(
        bus.pending(),
        &vec![
            RegisterWrite { reg: 0x02, value: 90 },
            RegisterWrite { reg: 0x07, value: 255 },
            RegisterWrite { reg: 0x02, value: 0 },
        ]
    );
}

#[test]
fn transaction_is_register_then_value_to_the_fixed_address() {
    let w = RegisterWrite { reg: 0x0A, value: 0x7F };
    assert_eq!(w.transaction(), Transaction { address: 0x30, payload: [0x0A, 0x7F] });
    let swapped = RegisterWrite { reg: 0x7F, value: 0x0A };
    assert_eq!(swapped.transaction(), Transaction { address: 0x30, payload: [0x7F, 0x0A] });
}

#[test]
fn last_written_is_the_latest_value_of_that_register() {
    let mut bus = CarI2c::new();
    write_reg(&mut bus, 0x03, 10);
    write_reg(&mut bus, 0x04, 20);
    write_reg(&mut bus, 0x03, 30);
    assert_eq!(bus.last_written(0x03), Some(30));
    assert_eq!(bus.last_written(0x04), Some(20));
    assert_eq!(bus.last_written(0x05), None);
}

#[test]
fn take_pending_drains_the_queue() {
    let mut bus = CarI2c::new();
    write_reg(&mut bus, 0x01, 1);
    write_reg(&mut bus, 0x02, 2);
    let sent = bus.take_pending();
    assert_eq!(
        sent,
        vec![
            RegisterWrite { reg: 0x01, value: 1 },
            RegisterWrite { reg: 0x02, value: 2 },
        ]
    );
    assert!(bus.pending().is_empty());
    assert_eq!(bus.last_written(0x01), None);
    write_reg(&mut bus, 0x03, 3);
    assert_eq!(bus.take_pending(), vec![RegisterWrite { reg: 0x03, value: 3 }]);
}
