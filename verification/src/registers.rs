//! The register table of the Solis inverter.

use crate::descriptor::{valid_table, views_of, DescriptorTable, DescriptorView, RegisterDescriptor, Width};
use vstd::pervasive::unreached;
use vstd::prelude::*;

verus! {

/// The descriptor with the given name, unit, address, width and scale.
pub open spec fn register(
    name: Seq<char>,
    unit: Seq<char>,
    address: u16,
    width: Width,
    scale: u32,
) -> DescriptorView {
    DescriptorView { name, unit, address, width, scale }
}

/// The quantities that the inverter reports, in the order of a pass.
pub open spec fn solis_table() -> Seq<DescriptorView> {
    seq![
        register("Total power generation"@, "kWh"@, 3008, Width::Bits32, 0),
        register("kWh today"@, "kWh"@, 3014, Width::Bits16, 1),
        register("kWh yesterday"@, "kWh"@, 3015, Width::Bits16, 1),
        register("kWh this month"@, "kWh"@, 3010, Width::Bits32, 0),
        register("kWh last month"@, "kWh"@, 3012, Width::Bits32, 0),
        register("AC power"@, "W"@, 3004, Width::Bits32, 0),
        register("DC1 voltage"@, "V"@, 3021, Width::Bits16, 1),
        register("DC1 current"@, "A"@, 3022, Width::Bits16, 1),
        register("DC2 voltage"@, "V"@, 3023, Width::Bits16, 1),
        register("DC2 current"@, "A"@, 3024, Width::Bits16, 1),
        register("AC voltage"@, "V"@, 3035, Width::Bits16, 1),
        register("Temperature"@, "\u{b0}C"@, 3041, Width::Bits16, 1),
        register("AC frequency"@, "Hz"@, 3042, Width::Bits16, 2),
    ]
}

fn entry(name: &str, unit: &str, address: u16, width: Width, scale: u32) -> (d: RegisterDescriptor)
    ensures
        d@ == register(name@, unit@, address, width, scale),
{
    RegisterDescriptor { name: name.to_owned(), unit: unit.to_owned(), address, width, scale }
}

/// The names and the addresses of the inverter's quantities are pairwise
/// distinct.
pub proof fn solis_table_is_valid()
    ensures
        valid_table(solis_table()),
{
    let t = solis_table();
    reveal_strlit("Total power generation");
    reveal_strlit("kWh today");
    reveal_strlit("kWh yesterday");
    reveal_strlit("kWh this month");
    reveal_strlit("kWh last month");
    reveal_strlit("AC power");
    reveal_strlit("DC1 voltage");
    reveal_strlit("DC1 current");
    reveal_strlit("DC2 voltage");
    reveal_strlit("DC2 current");
    reveal_strlit("AC voltage");
    reveal_strlit("Temperature");
    reveal_strlit("AC frequency");
    // Most names differ in length.
    assert(t.len() == 13);
    assert(t[0].name.len() == 22 && t[1].name.len() == 9 && t[2].name.len() == 13);
    assert(t[3].name.len() == 14 && t[4].name.len() == 14 && t[5].name.len() == 8);
    assert(t[6].name.len() == 11 && t[7].name.len() == 11 && t[8].name.len() == 11);
    assert(t[9].name.len() == 11 && t[10].name.len() == 10 && t[11].name.len() == 11);
    assert(t[12].name.len() == 12);
    // Names of one length differ in some character.
    assert(t[3].name[4] != t[4].name[4]);
    assert(t[6].name[4] != t[7].name[4]);
    assert(t[6].name[2] != t[8].name[2]);
    assert(t[6].name[2] != t[9].name[2]);
    assert(t[7].name[2] != t[8].name[2]);
    assert(t[7].name[2] != t[9].name[2]);
    assert(t[8].name[4] != t[9].name[4]);
    assert(t[6].name[0] != t[11].name[0]);
    assert(t[7].name[0] != t[11].name[0]);
    assert(t[8].name[0] != t[11].name[0]);
    assert(t[9].name[0] != t[11].name[0]);
}

/// Builds the table of the inverter's quantities.
pub fn solis_registers() -> (t: DescriptorTable)
    ensures
        t@ == solis_table(),
{
    let mut entries: Vec<RegisterDescriptor> = Vec::new();
    entries.push(entry("Total power generation", "kWh", 3008, Width::Bits32, 0));
    entries.push(entry("kWh today", "kWh", 3014, Width::Bits16, 1));
    entries.push(entry("kWh yesterday", "kWh", 3015, Width::Bits16, 1));
    entries.push(entry("kWh this month", "kWh", 3010, Width::Bits32, 0));
    entries.push(entry("kWh last month", "kWh", 3012, Width::Bits32, 0));
    entries.push(entry("AC power", "W", 3004, Width::Bits32, 0));
    entries.push(entry("DC1 voltage", "V", 3021, Width::Bits16, 1));
    entries.push(entry("DC1 current", "A", 3022, Width::Bits16, 1));
    entries.push(entry("DC2 voltage", "V", 3023, Width::Bits16, 1));
    entries.push(entry("DC2 current", "A", 3024, Width::Bits16, 1));
    entries.push(entry("AC voltage", "V", 3035, Width::Bits16, 1));
    entries.push(entry("Temperature", "\u{b0}C", 3041, Width::Bits16, 1));
    entries.push(entry("AC frequency", "Hz", 3042, Width::Bits16, 2));
    proof {
        assert(views_of(entries@) =~= solis_table());
        solis_table_is_valid();
    }
    // The table is valid, so its validation cannot fail.
    match DescriptorTable::new(entries) {
        Ok(t) => t,
        Err(_) => unreached(),
    }
}

} // verus!
