use sht3x::command::{ClockStretch, Command, Rate, Repeatability};

fn all_commands() -> Vec<Command> {
    let repeatabilities = [Repeatability::High, Repeatability::Medium, Repeatability::Low];
    let mut commands = Vec::new();
    for cs in [ClockStretch::Enabled, ClockStretch::Disabled] {
        for rpt in repeatabilities {
            commands.push(Command::SingleShot(cs, rpt));
        }
    }
    for rate in [Rate::R0_5, Rate::R1, Rate::R2, Rate::R4, Rate::R10] {
        for rpt in repeatabilities {
            commands.push(Command::Periodic(rate, rpt));
        }
    }
    commands.push(Command::FetchData);
    commands.push(Command::PeriodicWithART);
    commands.push(Command::Break);
    commands.push(Command::SoftReset);
    commands.push(Command::HeaterEnable);
    commands.push(Command::HeaterDisable);
    commands.push(Command::Status);
    commands.push(Command::ClearStatus);
    commands
}

#[test]
fn single_shot_opcodes() {
    assert_eq!(Command::SingleShot(ClockStretch::Enabled, Repeatability::High).value(), 0x2C06);
    assert_eq!(Command::SingleShot(ClockStretch::Enabled, Repeatability::Medium).value(), 0x2C0D);
    assert_eq!(Command::SingleShot(ClockStretch::Enabled, Repeatability::Low).value(), 0x2C10);
    assert_eq!(Command::SingleShot(ClockStretch::Disabled, Repeatability::High).value(), 0x2400);
    assert_eq!(Command::SingleShot(ClockStretch::Disabled, Repeatability::Medium).value(), 0x240B);
    assert_eq!(Command::SingleShot(ClockStretch::Disabled, Repeatability::Low).value(), 0x2416);
}

#[test]
fn periodic_opcodes() {
    assert_eq!(Command::Periodic(Rate::R0_5, Repeatability::High).value(), 0x2032);
    assert_eq!(Command::Periodic(Rate::R0_5, Repeatability::Medium).value(), 0x2024);
    assert_eq!(Command::Periodic(Rate::R0_5, Repeatability::Low).value(), 0x202F);
    assert_eq!(Command::Periodic(Rate::R1, Repeatability::High).value(), 0x2130);
    assert_eq!(Command::Periodic(Rate::R1, Repeatability::Medium).value(), 0x2126);
    assert_eq!(Command::Periodic(Rate::R1, Repeatability::Low).value(), 0x212D);
    assert_eq!(Command::Periodic(Rate::R2, Repeatability::High).value(), 0x2236);
    assert_eq!(Command::Periodic(Rate::R2, Repeatability::Medium).value(), 0x2220);
    assert_eq!(Command::Periodic(Rate::R2, Repeatability::Low).value(), 0x222B);
    assert_eq!(Command::Periodic(Rate::R4, Repeatability::High).value(), 0x2334);
    assert_eq!(Command::Periodic(Rate::R4, Repeatability::Medium).value(), 0x2322);
    assert_eq!(Command::Periodic(Rate::R4, Repeatability::Low).value(), 0x2329);
    assert_eq!(Command::Periodic(Rate::R10, Repeatability::High).value(), 0x2737);
    assert_eq!(Command::Periodic(Rate::R10, Repeatability::Medium).value(), 0x2721);
    assert_eq!(Command::Periodic(Rate::R10, Repeatability::Low).value(), 0x272A);
}

#[test]
fn other_opcodes() {
    assert_eq!(Command::FetchData.value(), 0xE000);
    assert_eq!(Command::PeriodicWithART.value(), 0x2B32);
    assert_eq!(Command::Break.value(), 0x3093);
    assert_eq!(Command::SoftReset.value(), 0x30A2);
    assert_eq!(Command::HeaterEnable.value(), 0x306D);
    assert_eq!(Command::HeaterDisable.value(), 0x3066);
    assert_eq!(Command::Status.value(), 0xF32D);
    assert_eq!(Command::ClearStatus.value(), 0x3041);
}

#[test]
fn no_two_commands_share_an_opcode() {
    let commands = all_commands();
    assert_eq!(commands.len(), 29);
    for (i, a) in commands.iter().enumerate() {
        for (j, b) in commands.iter().enumerate() {
            if i != j {
                assert_ne!(a.value(), b.value(), "{:?} and {:?}", a, b);
            }
        }
    }
}

#[test]
fn frames_are_big_endian() {
    assert_eq!(Command::SoftReset.to_bytes(), [0x30, 0xA2]);
    assert_eq!(Command::Status.to_bytes(), [0xF3, 0x2D]);
    assert_eq!(Command::FetchData.to_bytes(), [0xE0, 0x00]);
    for command in all_commands() {
        assert_eq!(command.to_bytes(), command.value().to_be_bytes());
    }
}

#[test]
fn repeatability_durations() {
    assert_eq!(Repeatability::Low.max_duration(), 4);
    assert_eq!(Repeatability::Medium.max_duration(), 6);
    assert_eq!(Repeatability::High.max_duration(), 15);
}
