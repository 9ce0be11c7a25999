//! Graphics hardware: which vendors' devices a machine has, and the driver
//! packages that go with them.

use crate::lists::{extend_unique, extend_unique_strs};
use crate::text::{
    all_hex, all_hex_chars, append_str, contains, contains_str, from_chars, join, join_strings,
    lines, lines_of, lower, lower_chars, rows, same_str, split, split_chars, str_texts,
    strip_prefixes, strip_prefixes_chars, texts, to_chars, trim, trim_chars,
};
use vstd::prelude::*;

verus! {

/// A maker of graphics hardware.
#[derive(Debug, Clone, Copy, PartialEq, Eq, Hash, Structural)]
pub enum GpuVendor {
    Amd,
    Intel,
    Nvidia,
}

/// A driver for NVIDIA hardware.
#[derive(Debug, Clone, Copy, PartialEq, Eq, Structural)]
pub enum NvidiaVariant {
    /// NVIDIA's open kernel module, for newer cards.
    Open,
    /// NVIDIA's proprietary driver.
    Proprietary,
    /// The free Nouveau driver.
    Nouveau,
}

/// A set of vendors.
#[derive(Debug, Clone, Copy, PartialEq, Eq, Structural)]
pub struct GpuVendors {
    pub amd: bool,
    pub intel: bool,
    pub nvidia: bool,
}

impl GpuVendors {
    /// Whether the set holds `vendor`.
    pub open spec fn has(self, vendor: GpuVendor) -> bool {
        match vendor {
            GpuVendor::Amd => self.amd,
            GpuVendor::Intel => self.intel,
            GpuVendor::Nvidia => self.nvidia,
        }
    }

    /// The set with `vendor` in it.
    pub open spec fn with(self, vendor: GpuVendor) -> GpuVendors {
        match vendor {
            GpuVendor::Amd => GpuVendors { amd: true, ..self },
            GpuVendor::Intel => GpuVendors { intel: true, ..self },
            GpuVendor::Nvidia => GpuVendors { nvidia: true, ..self },
        }
    }

    /// The set with `vendor` in it, if there is one.
    pub open spec fn with_maybe(self, vendor: Option<GpuVendor>) -> GpuVendors {
        match vendor {
            Some(v) => self.with(v),
            None => self,
        }
    }

    /// Whether the set holds no vendor.
    pub open spec fn none(self) -> bool {
        !self.amd && !self.intel && !self.nvidia
    }

    /// The empty set.
    pub fn new() -> (s: GpuVendors)
        ensures
            s.none(),
    {
        GpuVendors { amd: false, intel: false, nvidia: false }
    }

    /// Whether the set holds `vendor`.
    pub fn contains(&self, vendor: GpuVendor) -> (r: bool)
        ensures
            r == self.has(vendor),
    {
        match vendor {
            GpuVendor::Amd => self.amd,
            GpuVendor::Intel => self.intel,
            GpuVendor::Nvidia => self.nvidia,
        }
    }

    /// Puts `vendor` into the set.
    pub fn insert(&mut self, vendor: GpuVendor)
        ensures
            *final(self) == old(self).with(vendor),
    {
        match vendor {
            GpuVendor::Amd => {
                self.amd = true;
            },
            GpuVendor::Intel => {
                self.intel = true;
            },
            GpuVendor::Nvidia => {
                self.nvidia = true;
            },
        }
    }

    /// Whether the set holds no vendor.
    pub fn is_empty(&self) -> (r: bool)
        ensures
            r == self.none(),
    {
        !self.amd && !self.intel && !self.nvidia
    }
}

/// The packages for AMD hardware.
pub open spec fn amd_packages() -> Seq<Seq<char>> {
    seq!["mesa"@, "vulkan-radeon"@, "xf86-video-amdgpu"@, "xf86-video-ati"@]
}

/// The packages for Intel hardware.
pub open spec fn intel_packages() -> Seq<Seq<char>> {
    seq!["intel-media-driver"@, "libva-intel-driver"@, "mesa"@, "vulkan-intel"@]
}

/// The packages for NVIDIA hardware with the given driver.
pub open spec fn nvidia_packages(variant: NvidiaVariant) -> Seq<Seq<char>> {
    match variant {
        NvidiaVariant::Open => seq!["dkms"@, "libva-nvidia-driver"@, "nvidia-open-dkms"@],
        NvidiaVariant::Proprietary => seq!["dkms"@, "libva-nvidia-driver"@, "nvidia-dkms"@],
        NvidiaVariant::Nouveau => seq!["mesa"@, "vulkan-nouveau"@, "xf86-video-nouveau"@],
    }
}

/// The driver packages for the given hardware: those for AMD, then Intel,
/// then NVIDIA if a driver was chosen for it, none of them twice.
pub open spec fn driver_list(
    vendors: GpuVendors,
    variant: Option<NvidiaVariant>,
) -> Seq<Seq<char>> {
    let a = if vendors.amd {
        extend_unique(Seq::empty(), amd_packages())
    } else {
        Seq::empty()
    };
    let b = if vendors.intel {
        extend_unique(a, intel_packages())
    } else {
        a
    };
    if vendors.nvidia && variant is Some {
        extend_unique(b, nvidia_packages(variant->0))
    } else {
        b
    }
}

/// The driver packages to install for the given hardware and NVIDIA driver.
pub fn driver_packages(vendors: &GpuVendors, nvidia_variant: Option<NvidiaVariant>) -> (out: Vec<
    String,
>)
    ensures
        texts(out@) == driver_list(*vendors, nvidia_variant),
{
    let mut packages: Vec<String> = Vec::new();
    assert(texts(packages@) =~= Seq::<Seq<char>>::empty());
    if vendors.amd {
        let values = ["mesa", "vulkan-radeon", "xf86-video-amdgpu", "xf86-video-ati"];
        assert(str_texts(values@) =~= amd_packages());
        extend_unique_strs(&mut packages, &values);
    }
    if vendors.intel {
        let values = ["intel-media-driver", "libva-intel-driver", "mesa", "vulkan-intel"];
        assert(str_texts(values@) =~= intel_packages());
        extend_unique_strs(&mut packages, &values);
    }
    if vendors.nvidia {
        match nvidia_variant {
            Some(NvidiaVariant::Open) => {
                let values = ["dkms", "libva-nvidia-driver", "nvidia-open-dkms"];
                assert(str_texts(values@) =~= nvidia_packages(NvidiaVariant::Open));
                extend_unique_strs(&mut packages, &values);
            },
            Some(NvidiaVariant::Proprietary) => {
                let values = ["dkms", "libva-nvidia-driver", "nvidia-dkms"];
                assert(str_texts(values@) =~= nvidia_packages(NvidiaVariant::Proprietary));
                extend_unique_strs(&mut packages, &values);
            },
            Some(NvidiaVariant::Nouveau) => {
                let values = ["mesa", "vulkan-nouveau", "xf86-video-nouveau"];
                assert(str_texts(values@) =~= nvidia_packages(NvidiaVariant::Nouveau));
                extend_unique_strs(&mut packages, &values);
            },
            None => {},
        }
    }
    packages
}

/// The word for an NVIDIA driver.
pub open spec fn variant_label(variant: NvidiaVariant) -> Seq<char> {
    match variant {
        NvidiaVariant::Open => "open"@,
        NvidiaVariant::Proprietary => "proprietary"@,
        NvidiaVariant::Nouveau => "nouveau"@,
    }
}

/// The word for an NVIDIA driver.
pub fn nvidia_variant_label(variant: NvidiaVariant) -> (r: &'static str)
    ensures
        r@ == variant_label(variant),
{
    match variant {
        NvidiaVariant::Open => "open",
        NvidiaVariant::Proprietary => "proprietary",
        NvidiaVariant::Nouveau => "nouveau",
    }
}

/// The names of the vendors in the set, in the order AMD, Intel, NVIDIA.
pub open spec fn vendor_names(vendors: GpuVendors) -> Seq<Seq<char>> {
    (if vendors.amd {
        seq!["AMD"@]
    } else {
        Seq::empty()
    }) + (if vendors.intel {
        seq!["Intel"@]
    } else {
        Seq::empty()
    }) + (if vendors.nvidia {
        seq!["NVIDIA"@]
    } else {
        Seq::empty()
    })
}

/// The line that sums up the hardware found and the driver chosen.
pub open spec fn gpu_summary(vendors: GpuVendors, variant: Option<NvidiaVariant>) -> Option<
    Seq<char>,
> {
    if vendors.none() {
        None
    } else {
        let head = "Detected GPU: "@ + join(vendor_names(vendors), ", "@);
        Some(
            match variant {
                Some(v) => head + " (NVIDIA driver: "@ + variant_label(v) + ")"@,
                None => head,
            },
        )
    }
}

/// The line that sums up the hardware found and the driver chosen, or `None`
/// where no hardware was found.
pub fn format_gpu_summary(vendors: &GpuVendors, nvidia_variant: Option<NvidiaVariant>) -> (r:
    Option<String>)
    ensures
        crate::model::opt_text(r) == gpu_summary(*vendors, nvidia_variant),
{
    if vendors.is_empty() {
        return None;
    }
    let mut parts: Vec<String> = Vec::new();
    if vendors.amd {
        parts.push("AMD".to_owned());
    }
    if vendors.intel {
        parts.push("Intel".to_owned());
    }
    if vendors.nvidia {
        parts.push("NVIDIA".to_owned());
    }
    assert(texts(parts@) =~= vendor_names(*vendors));
    let mut line = to_chars("Detected GPU: ");
    let joined = join_strings(&parts, ", ");
    crate::text::append(&mut line, &joined);
    match nvidia_variant {
        Some(v) => {
            append_str(&mut line, " (NVIDIA driver: ");
            append_str(&mut line, nvidia_variant_label(v));
            append_str(&mut line, ")");
        },
        None => {},
    }
    Some(from_chars(&line))
}

/// The vendor that a PCI vendor number stands for: the number in
/// hexadecimal, in either case, with or without `0x` in front and
/// whitespace around it.
pub open spec fn vendor_of(value: Seq<char>) -> Option<GpuVendor> {
    let id = lower(strip_prefixes(trim(value), "0x"@));
    if id == "1002"@ {
        Some(GpuVendor::Amd)
    } else if id == "8086"@ {
        Some(GpuVendor::Intel)
    } else if id == "10de"@ {
        Some(GpuVendor::Nvidia)
    } else {
        None
    }
}

/// The vendor that a PCI vendor number stands for.
pub fn parse_vendor_id(value: &str) -> (r: Option<GpuVendor>)
    ensures
        r == vendor_of(value@),
{
    let trimmed = trim_chars(&to_chars(value));
    let bare = strip_prefixes_chars(&trimmed, "0x");
    let id = lower_chars(&bare);
    if same_str(&id, "1002") {
        Some(GpuVendor::Amd)
    } else if same_str(&id, "8086") {
        Some(GpuVendor::Intel)
    } else if same_str(&id, "10de") {
        Some(GpuVendor::Nvidia)
    } else {
        None
    }
}

/// Whether a line of the PCI listing describes a graphics device.
pub open spec fn describes_gpu(line: Seq<char>) -> bool {
    contains(line, "VGA compatible controller"@) || contains(line, "3D controller"@) || contains(
        line,
        "Display controller"@,
    )
}

/// Whether a line of the PCI listing describes a graphics device.
pub fn is_gpu_line(line: &str) -> (r: bool)
    ensures
        r == describes_gpu(line@),
{
    let v = to_chars(line);
    contains_str(&v, "VGA compatible controller") || contains_str(&v, "3D controller")
        || contains_str(&v, "Display controller")
}

/// The first of `parts` that begins with four hexadecimal digits and then
/// ends or goes on with a colon: those digits, in lower case.
pub open spec fn first_vendor_number(parts: Seq<Seq<char>>) -> Option<Seq<char>>
    decreases parts.len(),
{
    if parts.len() == 0 {
        None
    } else {
        let candidate = split(parts[0], ':')[0];
        if candidate.len() == 4 && all_hex(candidate) {
            Some(lower(candidate))
        } else {
            first_vendor_number(parts.skip(1))
        }
    }
}

/// The vendor number in a line of the PCI listing: the first four
/// hexadecimal digits that stand right after a `[` and before a `:` or the
/// end of the bracketed part.
pub open spec fn lspci_vendor(line: Seq<char>) -> Option<Seq<char>> {
    first_vendor_number(split(line, '[').skip(1))
}

/// The vendor number in a line of the PCI listing, in lower case.
pub fn parse_vendor_from_lspci(line: &str) -> (r: Option<String>)
    ensures
        crate::model::opt_text(r) == lspci_vendor(line@),
{
    let parts = split_chars(&to_chars(line), '[');
    let mut i: usize = 1;
    while i < parts.len()
        invariant
            1 <= i <= parts.len(),
            rows(parts@) == split(line@, '['),
            first_vendor_number(rows(parts@).skip(i as int)) == first_vendor_number(
                rows(parts@).skip(1),
            ),
        decreases parts.len() - i,
    {
        let fields = split_chars(&parts[i], ':');
        let candidate = &fields[0];
        proof {
            let rest = rows(parts@).skip(i as int);
            assert(rest.skip(1) =~= rows(parts@).skip(i + 1));
        }
        if candidate.len() == 4 && all_hex_chars(candidate) {
            return Some(from_chars(&lower_chars(candidate)));
        }
        i += 1;
    }
    None
}

/// The vendors whose graphics devices the PCI listing shows.
pub open spec fn lspci_vendors(found: GpuVendors, listing: Seq<Seq<char>>) -> GpuVendors
    decreases listing.len(),
{
    if listing.len() == 0 {
        found
    } else {
        let before = lspci_vendors(found, listing.drop_last());
        let line = listing.last();
        if describes_gpu(line) && lspci_vendor(line) is Some {
            before.with_maybe(vendor_of(lspci_vendor(line)->0))
        } else {
            before
        }
    }
}

/// The vendors whose graphics devices the PCI listing `output` shows.
pub fn vendors_from_lspci(output: &str) -> (r: GpuVendors)
    ensures
        r == lspci_vendors(GpuVendors { amd: false, intel: false, nvidia: false }, lines(output@)),
{
    let listing = lines_of(&to_chars(output));
    let mut found = GpuVendors::new();
    let ghost none = found;
    let mut i: usize = 0;
    while i < listing.len()
        invariant
            i <= listing.len(),
            found == lspci_vendors(none, rows(listing@).take(i as int)),
        decreases listing.len() - i,
    {
        proof {
            let next = rows(listing@).take(i + 1);
            assert(next.drop_last() =~= rows(listing@).take(i as int));
        }
        let line = from_chars(&listing[i]);
        if is_gpu_line(line.as_str()) {
            match parse_vendor_from_lspci(line.as_str()) {
                Some(number) => {
                    match parse_vendor_id(number.as_str()) {
                        Some(vendor) => {
                            found.insert(vendor);
                        },
                        None => {},
                    }
                },
                None => {},
            }
        }
        i += 1;
    }
    assert(rows(listing@).take(listing.len() as int) =~= rows(listing@));
    found
}

/// The vendors that a list of names, separated by commas, names: `amd`,
/// `intel` and `nvidia`, in either case, other names passed over.
pub open spec fn named_vendors(found: GpuVendors, names: Seq<Seq<char>>) -> GpuVendors
    decreases names.len(),
{
    if names.len() == 0 {
        found
    } else {
        let before = named_vendors(found, names.drop_last());
        let name = lower(trim(names.last()));
        if name == "amd"@ {
            before.with(GpuVendor::Amd)
        } else if name == "intel"@ {
            before.with(GpuVendor::Intel)
        } else if name == "nvidia"@ {
            before.with(GpuVendor::Nvidia)
        } else {
            before
        }
    }
}

/// The vendors that a setting for developers names, or `None` where it
/// names none.
pub fn dev_gpu_override(value: &str) -> (r: Option<GpuVendors>)
    ensures
        match r {
            Some(found) => !found.none() && found == named_vendors(
                GpuVendors { amd: false, intel: false, nvidia: false },
                split(value@, ','),
            ),
            None => named_vendors(
                GpuVendors { amd: false, intel: false, nvidia: false },
                split(value@, ','),
            ).none(),
        },
{
    let names = split_chars(&to_chars(value), ',');
    let mut found = GpuVendors::new();
    let ghost none = found;
    let mut i: usize = 0;
    while i < names.len()
        invariant
            i <= names.len(),
            found == named_vendors(none, rows(names@).take(i as int)),
        decreases names.len() - i,
    {
        proof {
            let next = rows(names@).take(i + 1);
            assert(next.drop_last() =~= rows(names@).take(i as int));
        }
        let name = lower_chars(&trim_chars(&names[i]));
        if same_str(&name, "amd") {
            found.insert(GpuVendor::Amd);
        } else if same_str(&name, "intel") {
            found.insert(GpuVendor::Intel);
        } else if same_str(&name, "nvidia") {
            found.insert(GpuVendor::Nvidia);
        }
        i += 1;
    }
    assert(rows(names@).take(names.len() as int) =~= rows(names@));
    if found.is_empty() {
        None
    } else {
        Some(found)
    }
}

} // verus!
