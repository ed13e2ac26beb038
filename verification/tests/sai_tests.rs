use sai_timer_hal::NativeError;
use sai_timer_hal::sai::config::BitsPerSample;
use sai_timer_hal::sai::config::ChannelFormat;
use sai_timer_hal::sai::config::CommFormat;
use sai_timer_hal::sai::config::Mode;
use sai_timer_hal::sai::DriverConfig;
use sai_timer_hal::sai::I2S0;
use sai_timer_hal::sai::I2S1;
use sai_timer_hal::sai::I2sCommFormat;
use sai_timer_hal::sai::I2sConfigure;
use sai_timer_hal::sai::I2sDriver;
use sai_timer_hal::sai::I2sLeftMode;
use sai_timer_hal::sai::I2sMode;
use sai_timer_hal::sai::I2sRx;
use sai_timer_hal::sai::I2sRxTx;
use sai_timer_hal::sai::I2sTx;
use sai_timer_hal::sai::InstallPhase;
use sai_timer_hal::sai::PinConfig;
use sai_timer_hal::sai::RxOnly;
use sai_timer_hal::sai::RxTx;
use sai_timer_hal::sai::SaiAction;
use sai_timer_hal::sai::Sample24;
use sai_timer_hal::sai::TdmMode;
use sai_timer_hal::sai::TxOnly;

#[test]
fn mode_masks_are_the_native_bits() {
    assert_eq!(Mode::Master.mask(), 0x01);
    assert_eq!(Mode::Slave.mask(), 0x02);
    assert_eq!(Mode::Tx.mask(), 0x04);
    assert_eq!(Mode::Rx.mask(), 0x08);
    assert_eq!(Mode::Pdm.mask(), 0x40);
}

#[test]
fn bits_per_sample_values() {
    assert_eq!(BitsPerSample::Bits8.bits(), 8);
    assert_eq!(BitsPerSample::Bits16.bits(), 16);
    assert_eq!(BitsPerSample::Bits24.bits(), 24);
    assert_eq!(BitsPerSample::Bits32.bits(), 32);
}

#[test]
fn bit_width_is_eight_times_element_size() {
    for size in 1..=4usize {
        assert_eq!(BitsPerSample::from_size(size).bits() as usize, 8 * size);
    }
    assert_eq!(BitsPerSample::from_size(1), BitsPerSample::Bits8);
    assert_eq!(BitsPerSample::from_size(2), BitsPerSample::Bits16);
    assert_eq!(BitsPerSample::from_size(3), BitsPerSample::Bits24);
    assert_eq!(BitsPerSample::from_size(4), BitsPerSample::Bits32);
}

#[test]
fn channel_format_values() {
    assert_eq!(ChannelFormat::RightLeft.value(), 0);
    assert_eq!(ChannelFormat::AllRight.value(), 1);
    assert_eq!(ChannelFormat::AllLeft.value(), 2);
    assert_eq!(ChannelFormat::OnlyRight.value(), 3);
    assert_eq!(ChannelFormat::OnlyLeft.value(), 4);
}

#[test]
fn comm_format_values() {
    assert_eq!(CommFormat::I2s.value(), 0x01);
    assert_eq!(CommFormat::Msb.value(), 0x02);
    assert_eq!(CommFormat::PcmShort.value(), 0x04);
    assert_eq!(CommFormat::PcmLong.value(), 0x0C);
}

#[test]
fn declared_pairs_resolve_to_fixed_formats() {
    assert_eq!(<I2S0 as I2sCommFormat<I2sMode>>::get_comm_format(), CommFormat::I2s);
    assert_eq!(<I2S0 as I2sCommFormat<I2sLeftMode>>::get_comm_format(), CommFormat::Msb);
    assert_eq!(<I2S0 as I2sCommFormat<TdmMode>>::get_comm_format(), CommFormat::PcmShort);
    assert_eq!(<I2S1 as I2sCommFormat<I2sMode>>::get_comm_format(), CommFormat::I2s);
    assert_eq!(<I2S1 as I2sCommFormat<I2sLeftMode>>::get_comm_format(), CommFormat::Msb);
    assert_eq!(<I2S1 as I2sCommFormat<TdmMode>>::get_comm_format(), CommFormat::PcmShort);
}

type RxDriver = I2sDriver<I2S0, I2sMode, i16, RxOnly>;
type TxDriver = I2sDriver<I2S0, I2sMode, i16, TxOnly>;
type DuplexDriver = I2sDriver<I2S1, I2sLeftMode, u32, RxTx>;

#[test]
fn configure_receive_only() {
    let (config, pins) = RxDriver::configure(26, 25, Some(23), None, None, 44100);
    let expected = DriverConfig {
        mode: 0x01 | 0x08,
        sample_rate: 44100,
        bits_per_sample: 16,
        channel_format: 0,
        communication_format: 0x01,
        intr_alloc_flags: 2,
        dma_buf_count: 8,
        dma_buf_len: 64,
        use_apll: false,
    };
    assert_eq!(config, expected);
    let expected_pins = PinConfig {
        bck_io_num: 26,
        ws_io_num: 25,
        data_in_num: 23,
        data_out_num: -1,
        mck_io_num: -1,
    };
    assert_eq!(pins, expected_pins);
}

#[test]
fn configure_transmit_only() {
    let (config, pins) = TxDriver::configure(26, 25, None, Some(22), Some(0), 48000);
    assert_eq!(config.mode, 0x01 | 0x04);
    assert_eq!(config.sample_rate, 48000);
    assert_eq!(config.bits_per_sample, 16);
    assert_eq!(pins.data_in_num, -1);
    assert_eq!(pins.data_out_num, 22);
    assert_eq!(pins.mck_io_num, 0);
}

#[test]
fn configure_duplex() {
    let (config, pins) = DuplexDriver::configure(14, 15, Some(16), Some(17), None, 8000);
    assert_eq!(config.mode, 0x01 | 0x08 | 0x04);
    assert_eq!(config.bits_per_sample, 32);
    assert_eq!(config.communication_format, 0x02);
    assert_eq!(pins.data_in_num, 16);
    assert_eq!(pins.data_out_num, 17);
}

#[test]
fn configure_24_bit_sample() {
    let (config, _) = I2sDriver::<I2S0, TdmMode, Sample24, TxOnly>::configure(
        4,
        5,
        None,
        Some(6),
        None,
        32000,
    );
    assert_eq!(config.bits_per_sample, 24);
    assert_eq!(config.communication_format, 0x04);
}

#[test]
fn receive_driver_construction_and_transfer() {
    let mut setup = RxDriver::new_rx(I2S0::new(), 26, 25, 23, None, 16000);
    let install = setup.pending_action().unwrap();
    match install {
        SaiAction::Install { port, config } => {
            assert_eq!(port, 0);
            assert_eq!(config.mode, 0x09);
            assert_eq!(config.bits_per_sample, 16);
        }
        other => panic!("expected the install call, got {:?}", other),
    }
    setup.advance(Ok(()));
    let bind = setup.pending_action().unwrap();
    match bind {
        SaiAction::BindPins { port, pins } => {
            assert_eq!(port, 0);
            assert_eq!(pins.data_in_num, 23);
            assert_eq!(pins.data_out_num, -1);
        }
        other => panic!("expected the pin-binding call, got {:?}", other),
    }
    setup.advance(Ok(()));
    assert_eq!(setup.phase(), InstallPhase::Done);
    assert!(setup.pending_action().is_none());
    let mut driver = match setup.finish() {
        Ok(d) => d,
        Err(_) => panic!("a completed flow must yield a driver"),
    };

    let mut samples = [0i16; 8];
    let read = driver.read(&mut samples);
    assert_eq!(read, SaiAction::Read { port: 0, len: 8 });

    let (_i2s, teardown) = driver.release();
    assert_eq!(teardown, SaiAction::Uninstall { port: 0 });
}

#[test]
fn transmit_driver_write_has_bounded_wait() {
    let mut setup = TxDriver::new_tx(I2S0::new(), 26, 25, 22, None, 16000);
    setup.advance(Ok(()));
    setup.advance(Ok(()));
    let mut driver = match setup.finish() {
        Ok(d) => d,
        Err(_) => panic!("a completed flow must yield a driver"),
    };
    let samples = [1i16, 2, 3];
    let write = driver.write(&samples);
    assert_eq!(write, SaiAction::Write { port: 0, len: 3, timeout_ticks: 100 });
}

#[test]
fn failed_install_returns_token_and_error() {
    let mut setup = RxDriver::new_rx(I2S0::new(), 26, 25, 23, None, 16000);
    setup.advance(Err(NativeError { code: 0x103 }));
    assert_eq!(setup.phase(), InstallPhase::Failed { err: NativeError { code: 0x103 } });
    let (i2s, err) = match setup.finish() {
        Err(back) => back,
        Ok(_) => panic!("a failed flow must not yield a driver"),
    };
    assert_eq!(err, NativeError { code: 0x103 });

    // The identity token came back: the configuration can be retried.
    let mut retry = RxDriver::new_rx(i2s, 26, 25, 23, None, 16000);
    retry.advance(Ok(()));
    retry.advance(Ok(()));
    assert!(retry.finish().is_ok());
}

#[test]
fn failed_pin_binding_uninstalls_before_failing() {
    let mut setup = DuplexDriver::new(I2S1::new(), 14, 15, 16, 17, None, 8000);
    setup.advance(Ok(()));
    let bind_err = NativeError { code: 0x102 };
    setup.advance(Err(bind_err));
    // The engine is installed, so the flow demands the compensating
    // uninstall before it may fail.
    assert_eq!(setup.phase(), InstallPhase::RollingBack { err: bind_err });
    assert_eq!(setup.pending_action(), Some(SaiAction::Uninstall { port: 1 }));
    setup.advance(Ok(()));
    assert_eq!(setup.phase(), InstallPhase::Failed { err: bind_err });
    let (_i2s, err) = match setup.finish() {
        Err(back) => back,
        Ok(_) => panic!("a failed flow must not yield a driver"),
    };
    assert_eq!(err, bind_err);
}

#[test]
fn failed_uninstall_is_fatal() {
    let mut setup = TxDriver::new_tx(I2S0::new(), 26, 25, 22, None, 16000);
    setup.advance(Ok(()));
    setup.advance(Err(NativeError { code: 0x102 }));
    let uninstall_err = NativeError { code: 0x105 };
    setup.advance(Err(uninstall_err));
    assert_eq!(setup.phase(), InstallPhase::Fatal { err: uninstall_err });
    assert!(setup.pending_action().is_none());
}
