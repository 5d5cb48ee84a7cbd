//! Register descriptors and the descriptor table.
//!
//! A descriptor is the static metadata of one measurable quantity: where it
//! lives on the device and how its raw words are to be read. A table is an
//! ordered list of descriptors whose names and addresses are pairwise
//! distinct; its order is the order of a pass.

use vstd::prelude::*;

verus! {

/// Bit width of a register quantity.
#[derive(Clone, Copy, Debug, PartialEq, Eq, Structural)]
pub enum Width {
    /// One sixteen-bit word.
    Bits16,
    /// Two consecutive sixteen-bit words, high word first.
    Bits32,
}

impl Width {
    /// The width in bits.
    pub open spec fn bits(self) -> nat {
        match self {
            Width::Bits16 => 16,
            Width::Bits32 => 32,
        }
    }

    /// The number of consecutive words that hold a quantity of this width.
    pub open spec fn words(self) -> nat {
        match self {
            Width::Bits16 => 1,
            Width::Bits32 => 2,
        }
    }

    /// The width that has `bits` bits, if there is one.
    pub open spec fn of_bits(bits: u32) -> Option<Width> {
        if bits == 16 {
            Some(Width::Bits16)
        } else if bits == 32 {
            Some(Width::Bits32)
        } else {
            None
        }
    }

    /// Turns a bit count into a width; only 16 and 32 are widths.
    pub fn from_bits(bits: u32) -> (r: Option<Width>)
        ensures
            r == Width::of_bits(bits),
    {
        if bits == 16 {
            Some(Width::Bits16)
        } else if bits == 32 {
            Some(Width::Bits32)
        } else {
            None
        }
    }

    /// The number of words one read of this width asks for: the width
    /// divided by sixteen.
    pub fn word_count(self) -> (n: u16)
        ensures
            n == self.words(),
            n * 16 == self.bits(),
    {
        match self {
            Width::Bits16 => 1,
            Width::Bits32 => 2,
        }
    }
}

/// Why a descriptor or a table was refused at construction.
#[derive(Clone, Copy, Debug, PartialEq, Eq, Structural)]
pub enum ConfigError {
    /// The width is neither 16 nor 32 bits.
    UnsupportedWidth { bits: u32 },
    /// The descriptor at `index` has the name of an earlier one.
    DuplicateName { index: usize },
    /// The descriptor at `index` has the address of an earlier one, and a
    /// name of its own.
    DuplicateAddress { index: usize },
}

/// Static metadata of one measurable quantity.
#[derive(Clone, Debug, PartialEq, Eq)]
pub struct RegisterDescriptor {
    /// Human-readable identifier, from which the publish topic is derived.
    pub name: String,
    /// Engineering unit.
    pub unit: String,
    /// Device-space offset of the first word.
    pub address: u16,
    /// Bit width of the quantity.
    pub width: Width,
    /// Number of implied decimal digits: the raw integer stands for itself
    /// divided by ten to this power.
    pub scale: u32,
}

/// A descriptor as a mathematical value.
pub struct DescriptorView {
    pub name: Seq<char>,
    pub unit: Seq<char>,
    pub address: u16,
    pub width: Width,
    pub scale: u32,
}

impl View for RegisterDescriptor {
    type V = DescriptorView;

    open spec fn view(&self) -> DescriptorView {
        DescriptorView {
            name: self.name@,
            unit: self.unit@,
            address: self.address,
            width: self.width,
            scale: self.scale,
        }
    }
}

impl RegisterDescriptor {
    /// Builds a descriptor from a width given in bits. A width other than
    /// 16 or 32 is a configuration error; every name, unit, address and
    /// scale is accepted.
    pub fn new(name: &str, unit: &str, address: u16, width: u32, scale: u32) -> (r: Result<
        RegisterDescriptor,
        ConfigError,
    >)
        ensures
            match r {
                Ok(d) => Width::of_bits(width) == Some(d.width) && d@ == (DescriptorView {
                    name: name@,
                    unit: unit@,
                    address,
                    width: d.width,
                    scale,
                }),
                Err(e) => Width::of_bits(width) is None && e == (ConfigError::UnsupportedWidth {
                    bits: width,
                }),
            },
    {
        match Width::from_bits(width) {
            Some(w) => Ok(
                RegisterDescriptor {
                    name: name.to_owned(),
                    unit: unit.to_owned(),
                    address,
                    width: w,
                    scale,
                },
            ),
            None => Err(ConfigError::UnsupportedWidth { bits: width }),
        }
    }
}

/// No two descriptors of `t` have the same name.
pub open spec fn distinct_names(t: Seq<DescriptorView>) -> bool {
    forall|i: int, j: int| 0 <= i < j < t.len() ==> (#[trigger] t[i]).name != (#[trigger] t[j]).name
}

/// No two descriptors of `t` start at the same address.
pub open spec fn distinct_addresses(t: Seq<DescriptorView>) -> bool {
    forall|i: int, j: int|
        0 <= i < j < t.len() ==> (#[trigger] t[i]).address != (#[trigger] t[j]).address
}

/// Some descriptor before position `j` has the name of the one at `j`.
pub open spec fn repeats_name(t: Seq<DescriptorView>, j: int) -> bool {
    exists|i: int| 0 <= i < j && (#[trigger] t[i]).name == t[j].name
}

/// Some descriptor before position `j` starts at the address of the one at `j`.
pub open spec fn repeats_address(t: Seq<DescriptorView>, j: int) -> bool {
    exists|i: int| 0 <= i < j && (#[trigger] t[i]).address == t[j].address
}

/// What makes a list of descriptors a table: names and addresses are
/// pairwise distinct. Reads of two descriptors may still overlap.
pub open spec fn valid_table(t: Seq<DescriptorView>) -> bool {
    distinct_names(t) && distinct_addresses(t)
}

/// The descriptors of `v` as mathematical values, in order.
pub open spec fn views_of(v: Seq<RegisterDescriptor>) -> Seq<DescriptorView> {
    Seq::new(v.len(), |i: int| v[i]@)
}

/// An ordered, validated list of descriptors. It is built once and only
/// read afterwards.
#[derive(Debug, PartialEq, Eq)]
pub struct DescriptorTable {
    entries: Vec<RegisterDescriptor>,
}

impl View for DescriptorTable {
    type V = Seq<DescriptorView>;

    closed spec fn view(&self) -> Seq<DescriptorView> {
        views_of(self.entries@)
    }
}

impl DescriptorTable {
    #[verifier::type_invariant]
    spec fn well_formed(&self) -> bool {
        valid_table(self@)
    }

    /// Validates `entries` and makes a table of them, keeping their order.
    ///
    /// The list is refused at the first descriptor that repeats the name or
    /// the address of an earlier one; a repeated name is reported in
    /// preference to a repeated address.
    pub fn new(entries: Vec<RegisterDescriptor>) -> (r: Result<DescriptorTable, ConfigError>)
        ensures
            match r {
                Ok(t) => t@ == views_of(entries@) && valid_table(t@),
                Err(ConfigError::DuplicateName { index }) => {
                    &&& index < entries.len()
                    &&& valid_table(views_of(entries@).take(index as int))
                    &&& repeats_name(views_of(entries@), index as int)
                },
                Err(ConfigError::DuplicateAddress { index }) => {
                    &&& index < entries.len()
                    &&& valid_table(views_of(entries@).take(index as int))
                    &&& !repeats_name(views_of(entries@), index as int)
                    &&& repeats_address(views_of(entries@), index as int)
                },
                Err(ConfigError::UnsupportedWidth { .. }) => false,
            },
    {
        let ghost t = views_of(entries@);
        let n = entries.len();
        let mut j: usize = 0;
        while j < n
            invariant
                n == entries.len(),
                t == views_of(entries@),
                j <= n,
                valid_table(t.take(j as int)),
            decreases n - j,
        {
            let mut same_address = false;
            let mut i: usize = 0;
            while i < j
                invariant
                    n == entries.len(),
                    t == views_of(entries@),
                    i <= j < n,
                    valid_table(t.take(j as int)),
                    forall|k: int| 0 <= k < i ==> (#[trigger] t[k]).name != t[j as int].name,
                    same_address <==> exists|k: int|
                        0 <= k < i && (#[trigger] t[k]).address == t[j as int].address,
                decreases j - i,
            {
                if entries[i].name == entries[j].name {
                    assert(t[i as int].name == t[j as int].name);
                    return Err(ConfigError::DuplicateName { index: j });
                }
                if entries[i].address == entries[j].address {
                    assert(t[i as int].address == t[j as int].address);
                    same_address = true;
                }
                i += 1;
            }
            if same_address {
                return Err(ConfigError::DuplicateAddress { index: j });
            }
            assert(valid_table(t.take(j + 1))) by {
                let a = t.take(j as int);
                let b = t.take(j + 1);
                assert forall|x: int, y: int| 0 <= x < y < b.len() implies (#[trigger] b[x]).name
                    != (#[trigger] b[y]).name && b[x].address != b[y].address by {
                    if y < j {
                        assert(a[x].name != a[y].name);
                        assert(a[x].address != a[y].address);
                    } else {
                        assert(t[x].name != t[j as int].name);
                        assert(t[x].address != t[j as int].address);
                    }
                }
            }
            j += 1;
        }
        assert(t.take(n as int) == t);
        Ok(DescriptorTable { entries })
    }

    /// The number of descriptors.
    pub fn len(&self) -> (n: usize)
        ensures
            n == self@.len(),
            valid_table(self@),
    {
        proof {
            use_type_invariant(self);
        }
        self.entries.len()
    }

    /// The descriptor at position `index`, if the table has that many.
    pub fn get(&self, index: usize) -> (r: Option<&RegisterDescriptor>)
        ensures
            match r {
                Some(d) => index < self@.len() && d@ == self@[index as int],
                None => index >= self@.len(),
            },
    {
        if index < self.entries.len() {
            Some(&self.entries[index])
        } else {
            None
        }
    }
}

} // verus!
