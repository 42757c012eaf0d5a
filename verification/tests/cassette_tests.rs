use dp2200::cassette::{Cassette, CassetteDeck, DeckId, MovementSpeed};
use dp2200::datapoint::Datapoint;

#[test]
fn test_read_block() {
    let mut cassettes = Cassette::new();
    let tap_file = vec![
        2, 0, 0, 0, 0xbe, 0xef, 2, 0, 0, 0, 5, 0, 0, 0, 1, 2, 3, 4, 5, 5, 0, 0, 0,
    ];
    cassettes.load(DeckId::Deck1, tap_file);
    cassettes.ex_deck1();
    cassettes.ex_rbk();
    let mut data_out = Vec::new();
    while cassettes.get_status() & (1 << 4) == 0 {
        cassettes.clock();
        if cassettes.get_status() & (1 << 2) != 0 {
            data_out.push(cassettes.get_data());
            cassettes.strobe();
        }
    }

    assert_eq!(data_out, vec![0xbe, 0xef]);
    assert_eq!(cassettes.deck1.speed, MovementSpeed::Stopped);
}

#[test]
fn test_read_backwards() {
    let mut cassettes = Cassette::new();
    let tap_file = vec![
        2, 0, 0, 0, 0xbe, 0xef, 2, 0, 0, 0, 5, 0, 0, 0, 1, 2, 3, 4, 5, 5, 0, 0, 0,
    ];
    cassettes.load(DeckId::Deck1, tap_file);
    cassettes.ex_deck1();
    cassettes.ex_rbk();
    while cassettes.get_status() & (1 << 4) == 0 {
        cassettes.clock();
        cassettes.strobe();
    }

    let mut data_out = Vec::new();
    cassettes.ex_bsp();
    while cassettes.get_status() & (1 << 4) == 0 {
        cassettes.clock();
        if cassettes.get_status() & (1 << 2) != 0 {
            data_out.push(cassettes.get_data());
            cassettes.strobe();
        }
    }

    assert_eq!(data_out, vec![0xef, 0xbe]);
    assert_eq!(cassettes.deck1.speed, MovementSpeed::Stopped);
}

/// A TAP image whose first record holds 512 counting bytes, with a small
/// second record behind it.
fn sector_tap() -> Vec<u8> {
    let mut tap: Vec<u8> = Vec::new();
    tap.push(0x00);
    tap.push(0x02);
    tap.push(0);
    tap.push(0);
    for i in 0..512u32 {
        tap.push((i % 256) as u8);
    }
    tap.push(0x00);
    tap.push(0x02);
    tap.push(0);
    tap.push(0);
    let second = vec![4u8, 0, 0, 0, 0xde, 0xad, 0xbe, 0xef, 4, 0, 0, 0];
    tap.extend_from_slice(&second);
    tap
}

#[test]
fn test_read_sector() {
    let mut machine = Datapoint::build(&Vec::new());
    machine.load_cassette(sector_tap());
    assert_eq!(machine.cpu.memory[0], 0);
    assert_eq!(machine.cpu.memory[511], 255);
}

#[test]
fn test_read_sector_2() {
    let mut cassettes = Cassette::new();
    let tap_file = sector_tap();
    cassettes.load(DeckId::Deck1, tap_file);
    let sector = cassettes.get_first_sector();
    assert_eq!(sector.len(), 512);
}

#[test]
fn test_read_from_cpu() {
    let tap_file = vec![
        2, 0, 0, 0, 0xbe, 0xef, 2, 0, 0, 0, 5, 0, 0, 0, 1, 2, 3, 4, 5, 5, 0, 0, 0,
    ];

    let program = vec![
        "LoadImm A, 0xf0",
        "Adr",
        "Rbk",
        "dat1: Input",
        "AndImm 4",
        "JumpIf Zf, dat1",
        "Data",
        "Input",
        "Load B, A",
        "Status",
        "dat2: Input",
        "AndImm 4",
        "JumpIf Zf, dat2",
        "Data",
        "Input",
        "Load C, A",
        "Status",
        "dat3: Input",
        "AndImm 16",
        "JumpIf Zf, dat3",
        "Halt",
    ];

    let mut machine = Datapoint::new(program).unwrap();
    machine.databus.cassette.deck1 = CassetteDeck::new(tap_file);

    machine.run();
    assert_eq!(machine.cpu.alpha_registers[1], 0xbe);
    assert_eq!(machine.cpu.alpha_registers[2], 0xef);
}

#[test]
fn test_sf_gap_detect() {
    let mut cassettes = Cassette::new();
    let tap_file = vec![
        2, 0, 0, 0, 0xbe, 0xef, 2, 0, 0, 0, 5, 0, 0, 0, 1, 2, 3, 4, 5, 5, 0, 0, 0,
    ];

    cassettes.load(DeckId::Deck1, tap_file);
    cassettes.ex_deck1();
    cassettes.ex_sf();
    while cassettes.get_status() & (1 << 4) == 0 {
        cassettes.clock();
    }

    println!("Head pos: {}", cassettes.deck1.head_pos);
    assert!(cassettes.deck1.head_pos > 10);
}
