use low_power::chip::{Chip, Lpms, StopMode};
use low_power::dump::pre_stop_register_dump;
use low_power::gpio::{
    context_reads_of, stored_reads_ops, GpioContext, _disable_all_gpios, _gpio_to_analog,
    _recover_gpio_context, _store_gpio_context,
};
use low_power::chip::Config;
use low_power::op::Op;
use low_power::rcc::{rcc_reads_ops, _gate_all_peripherals, _restore_rcc_state, _store_rcc_state};
use low_power::register::{test_bit, Condition, Edit, GpioRegister, Port, Register};
use low_power::state::LowPower;

fn config() -> Config {
    Config {
        chip: Chip::L0,
        core_cm0p: false,
        lp_time_driver: false,
        no_gpios_while_stop: true,
        use_low_power_sleep: false,
        debug_with_sleep: false,
        defmt_flush: false,
    }
}

#[test]
fn edits_of_l0_set_their_bits() {
    assert_eq!(Edit::ClearWakeupFlag.apply(0), 0x4);
    assert_eq!(Edit::SelectStop.apply(0), 0x605);
    assert_eq!(Edit::AdcOff.apply(0), 0x2);
    assert_eq!(Edit::FlashSleepPowerDown.apply(0), 0x8);
    assert_eq!(Edit::RewritePwrCr.apply(0x1234_5678), 0x1234_5678);
}

#[test]
fn edits_of_l0_clear_their_bits_and_keep_the_rest() {
    assert_eq!(Edit::SelectStop.apply(0xffff_ffff), 0xffff_fffd);
    assert_eq!(Edit::VrefintOff.apply(0xffff_ffff), 0xffff_fffe);
    assert_eq!(Edit::Dac1Off.apply(0xffff_ffff), 0xffff_fffe);
    assert_eq!(Edit::Dac2Off.apply(0xffff_ffff), 0xfffe_ffff);
    assert_eq!(Edit::ClearWakeupFlag.apply(0x8000_0001), 0x8000_0005);
}

#[test]
fn edits_of_other_chips() {
    assert_eq!(Edit::ClearCpu1StopFlags.apply(0x600), 0x601);
    assert_eq!(Edit::ClearCpu2StopFlags.apply(0x600), 0x602);
    assert_eq!(Edit::ClearStopFlags.apply(0x2), 0x3);
    assert_eq!(Edit::HsiOn.apply(0), 0x100);
    assert_eq!(Edit::SysclkFromHsi.apply(0xffff_ffff), 0xffff_fffd);
    assert_eq!(Edit::SmpsFromHsi.apply(0xffff_ffff), 0xffff_fffc);
    assert_eq!(Edit::PwrClockOn.apply(0), 0x1000_0000);
    assert_eq!(Edit::SmpsBypass.apply(0x8000), 0x4000);
    assert_eq!(Edit::SelectLpms(Lpms::Stop2).apply(0x7), 0x2);
    assert_eq!(Edit::SelectLpms(Lpms::Stop1).apply(0x17), 0x11);
    assert_eq!(Edit::SelectLpmsCpu2(Lpms::Stop0).apply(0xff), 0xf8);
    assert_eq!(Edit::SelectStopScale3.apply(0x1), 0xc);
    assert_eq!(Edit::SelectStopScale3.apply(0xffff_ffff), 0xffff_fffe);
}

#[test]
fn an_edit_done_twice_does_no_more_than_once() {
    let edits = [
        Edit::ClearWakeupFlag,
        Edit::SelectStop,
        Edit::VrefintOff,
        Edit::AdcOff,
        Edit::Dac1Off,
        Edit::Dac2Off,
        Edit::FlashSleepPowerDown,
        Edit::RewritePwrCr,
        Edit::SmpsBypass,
        Edit::SelectLpms(Lpms::Stop1),
        Edit::SelectStopScale3,
    ];
    for edit in edits {
        for word in [0, 0xffff_ffff, 0x5555_aaaa] {
            assert_eq!(edit.apply(edit.apply(word)), edit.apply(word));
        }
    }
}

#[test]
fn registers_of_edits() {
    assert_eq!(Edit::SelectStop.register(), Register::PwrCr);
    assert_eq!(Edit::VrefintOff.register(), Register::SyscfgCfgr3);
    assert_eq!(Edit::Dac2Off.register(), Register::Dac1Cr);
    assert_eq!(Edit::SelectLpms(Lpms::Stop1).register(), Register::PwrCr1);
    assert_eq!(Edit::SelectLpmsCpu2(Lpms::Stop1).register(), Register::PwrC2cr1);
    assert_eq!(Edit::SelectStopScale3.register(), Register::PwrPmcr);
}

#[test]
fn conditions() {
    assert!(Condition::HsiReady.holds(0x400));
    assert!(!Condition::HsiReady.holds(0xffff_fbff));
    assert!(Condition::SysclkIsHsi.holds(0x4));
    assert!(!Condition::SysclkIsHsi.holds(0xc));
    assert!(!Condition::SysclkIsHsi.holds(0x1));
    assert_eq!(Condition::HsiReady.register(), Register::RccCr);
    assert_eq!(Condition::SysclkIsHsi.register(), Register::RccCfgr);
    assert!(test_bit(0x8000_0000, 31));
    assert!(!test_bit(0x7fff_ffff, 31));
}

#[test]
fn stop_modes_as_lpms() {
    assert_eq!(StopMode::Stop1.into_lpms(Chip::L4), Lpms::Stop1);
    assert_eq!(StopMode::Stop2.into_lpms(Chip::L4), Lpms::Stop2);
    assert_eq!(StopMode::Standby.into_lpms(Chip::Wb), Lpms::Stop2);
    assert_eq!(StopMode::Stop1.into_lpms(Chip::Wba), Lpms::Stop1);
    assert_eq!(StopMode::Stop2.into_lpms(Chip::Wba), Lpms::Stop0);
    assert_eq!(StopMode::Standby.into_lpms(Chip::Wba), Lpms::Stop0);
    assert_eq!(Lpms::Stop0.bits(), 0);
    assert_eq!(Lpms::Stop1.bits(), 1);
    assert_eq!(Lpms::Stop2.bits(), 2);
}

#[test]
fn a_new_context_is_all_zeros() {
    let words = vec![0; 8];
    assert_eq!(GpioContext::new(), GpioContext::from_peripheral(&words, 0));
}

#[test]
fn a_context_takes_its_words_in_order_and_writes_them_back() {
    let words: Vec<u32> = (0..10).collect();
    let context = GpioContext::from_peripheral(&words, 2);
    assert_eq!(context.moder, 2);
    assert_eq!(context.afrh, 9);
    let reads = context_reads_of(Port::C);
    let writes = context.into_peripheral(Port::C);
    assert_eq!(reads.len(), 8);
    assert_eq!(writes.len(), 8);
    for i in 0..8 {
        match (reads[i], writes[i]) {
            (Op::Read(r), Op::Write(w, word)) => {
                assert_eq!(r, w);
                assert_eq!(word, words[i + 2]);
            }
            other => panic!("{:?}", other),
        }
    }
}

#[test]
fn one_port_to_analog() {
    assert_eq!(
        _gpio_to_analog(Port::H),
        vec![
            Op::Write(Register::Gpio(Port::H, GpioRegister::Moder), 0xffff_ffff),
            Op::Write(Register::Gpio(Port::H, GpioRegister::Pupdr), 0),
        ]
    );
}

#[test]
fn all_ports_are_clocked_to_be_disabled_and_gated_after() {
    let ops = _disable_all_gpios();
    assert_eq!(ops.len(), 14);
    assert_eq!(ops[0], Op::Write(Register::RccGpioenr, 0x9f));
    assert_eq!(ops[13], Op::Write(Register::RccGpioenr, 0));
    let ports = [Port::A, Port::B, Port::C, Port::D, Port::E, Port::H];
    for (n, port) in ports.into_iter().enumerate() {
        assert_eq!(ops[1 + 2 * n..3 + 2 * n], _gpio_to_analog(port)[..]);
    }
}

#[test]
fn the_ports_come_back_and_so_do_the_port_clocks() {
    let reads = stored_reads_ops();
    assert_eq!(reads.len(), 49);
    assert_eq!(reads[48], Op::Read(Register::RccGpioenr));
    let words: Vec<u32> = (100..149).collect();
    let mut lp = LowPower::new(config());
    _store_gpio_context(&mut lp, &words);
    assert_eq!(lp.gpio_rcc_state, Some(148));
    let writes = _recover_gpio_context(&lp);
    assert_eq!(writes.len(), 50);
    assert_eq!(writes[0], Op::Write(Register::RccGpioenr, 0x9f));
    for i in 0..49 {
        match reads[i] {
            Op::Read(register) => assert_eq!(writes[i + 1], Op::Write(register, words[i])),
            other => panic!("{:?}", other),
        }
    }
    assert_eq!(writes[49], Op::Write(Register::RccGpioenr, 148));
}

#[test]
fn the_peripheral_clocks_come_back() {
    assert_eq!(
        rcc_reads_ops(),
        vec![
            Op::Read(Register::RccAhbenr),
            Op::Read(Register::RccApb1enr),
            Op::Read(Register::RccApb2enr),
        ]
    );
    let mut lp = LowPower::new(config());
    _store_rcc_state(&mut lp, &vec![0x101, 0x1000_0000, 0x1]);
    assert_eq!(
        _gate_all_peripherals(),
        vec![
            Op::Write(Register::RccAhbenr, 0),
            Op::Write(Register::RccApb1enr, 0),
            Op::Write(Register::RccApb2enr, 0),
        ]
    );
    assert_eq!(
        _restore_rcc_state(&lp),
        vec![
            Op::Write(Register::RccAhbenr, 0x101),
            Op::Write(Register::RccApb1enr, 0x1000_0000),
            Op::Write(Register::RccApb2enr, 0x1),
        ]
    );
}

#[test]
fn the_dump_reads_every_register_once_and_stays() {
    let ops = pre_stop_register_dump();
    assert_eq!(ops.len(), 53);
    assert_eq!(ops[0], Op::Read(Register::SyscfgCfgr2));
    assert_eq!(ops[2], Op::Read(Register::Dma1Cr(0)));
    assert_eq!(ops[7], Op::Read(Register::Dma1Cr(5)));
    assert_eq!(ops[8], Op::Read(Register::Adc1Cr));
    assert_eq!(ops[51], Op::Read(Register::FlashAcr));
    assert_eq!(ops[52], Op::Spin);
    for i in 0..52 {
        assert!(matches!(ops[i], Op::Read(_)));
        for j in 0..i {
            assert_ne!(ops[i], ops[j]);
        }
    }
}
