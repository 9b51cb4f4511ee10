use rust_gb::wram::Wram;

#[test]
fn read_write_bank0() {
    let mut wram = Wram::new();
    for i in 0x0000..0x1000 {
        wram.write_byte(i, 100);
    }
    for bank in 1..8 {
        wram.set_bank_index(bank);
        let value = wram.read_byte(0x0500);
        assert_eq!(value, 100);
    }
}

#[test]
fn read_write_bank1_to_bank7() {
    let mut wram = Wram::new();
    for bank in 1..8 {
        wram.set_bank_index(bank);
        wram.write_byte(0x1000, bank);
    }

    for bank in 0..8 {
        if bank == 0 || bank == 1 {
            wram.set_bank_index(bank);
            let value = wram.read_byte(0x1000);
            assert_eq!(value, 1);
        } else {
            wram.set_bank_index(bank);
            let value = wram.read_byte(0x1000);
            assert_eq!(value, bank);
        }
    }
}
