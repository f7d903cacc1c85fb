//! Target triples: the architecture, vendor, operating system, environment
//! and object format of a compilation target, and the C data model that
//! follows from them.
#![allow(non_camel_case_types)]
use crate::integral::Signedness;
use crate::size::{group_size, Size};
use crate::text::str_equal;
use vstd::prelude::*;

verus! {

broadcast use group_size;

/// Instruction set architecture.
#[derive(Debug, Clone, Copy, PartialEq, Eq, Structural, Hash)]
pub enum Architecture {
    Unknown,
    RiscV64,
    AArch64,
    x86_64,
}

/// Operating system.
#[derive(Debug, Clone, Copy, PartialEq, Eq, Structural, Hash)]
pub enum OperatingSystem {
    Unknown,
    Linux,
    Windows,
}

/// Vendor.
#[derive(Debug, Clone, Copy, PartialEq, Eq, Structural, Hash)]
pub enum Vendor {
    Unknown,
    PC,
}

/// Environment (C library / ABI flavour).
#[derive(Debug, Clone, Copy, PartialEq, Eq, Structural, Hash)]
pub enum Environment {
    Unknown,
    GNU,
    LLVM,
    MSVC,
}

/// Object file format.
#[derive(Debug, Clone, Copy, PartialEq, Eq, Structural, Hash)]
pub enum ObjectFormat {
    Unknown,
    ELF,
    COFF,
}

/// A compilation target.
#[derive(Debug, Clone, Copy, PartialEq, Eq, Structural, Hash)]
pub struct Triple {
    pub architecture: Architecture,
    pub vendor: Vendor,
    pub operating_system: OperatingSystem,
    pub environment: Environment,
    pub object_format: ObjectFormat,
}

/// Function calling convention.
#[derive(Debug, Clone, Copy, PartialEq, Eq, Structural, Hash)]
pub enum CallingConvention {
    SystemV,
    /// Windows fastcall.
    Fastcall,
}

/// Byte order.
#[derive(Debug, Clone, Copy, PartialEq, Eq, Structural, Hash)]
pub enum Endianess {
    Little,
    /// Not supported by the backend; kept for completeness.
    Big,
}

/// The C data model: the sizes of the fundamental types.
#[derive(Debug, Clone, Copy, PartialEq, Eq, Structural, Hash)]
pub enum DataModel {
    /// `long long` and pointers are 64 bits (mostly Win64).
    LLP64,
    /// `long` and pointers are 64 bits (mostly 64-bit Unix).
    LP64,
}

impl Default for Architecture {
    fn default() -> (r: Self)
        ensures
            r == Architecture::Unknown,
    {
        Architecture::Unknown
    }
}

impl Default for OperatingSystem {
    fn default() -> (r: Self)
        ensures
            r == OperatingSystem::Unknown,
    {
        OperatingSystem::Unknown
    }
}

impl Default for Vendor {
    fn default() -> (r: Self)
        ensures
            r == Vendor::Unknown,
    {
        Vendor::Unknown
    }
}

impl Default for Environment {
    fn default() -> (r: Self)
        ensures
            r == Environment::Unknown,
    {
        Environment::Unknown
    }
}

impl Default for ObjectFormat {
    fn default() -> (r: Self)
        ensures
            r == ObjectFormat::Unknown,
    {
        ObjectFormat::Unknown
    }
}

impl Default for Endianess {
    fn default() -> (r: Self)
        ensures
            r == Endianess::Little,
    {
        Endianess::Little
    }
}

impl Default for Triple {
    fn default() -> (r: Self)
        ensures
            r == Triple::unknown_spec(),
    {
        Triple::unknown()
    }
}

/// The architectures this compiler knows how to target.
pub open spec fn is_known_architecture(a: Architecture) -> bool {
    a != Architecture::Unknown
}

impl Architecture {
    /// The byte order, for a known architecture.
    pub fn endianness(self) -> (r: Option<Endianess>)
        ensures
            r == (if is_known_architecture(self) {
                Some(Endianess::Little)
            } else {
                None::<Endianess>
            }),
    {
        match self {
            Architecture::RiscV64 | Architecture::AArch64 | Architecture::x86_64 => Some(
                Endianess::Little,
            ),
            Architecture::Unknown => None,
        }
    }

    /// The pointer width in bytes, for a known architecture.
    pub fn pointer_width(self) -> (r: Option<Size>)
        ensures
            r is Some <==> is_known_architecture(self),
            r matches Some(s) ==> s@ == 8,
    {
        match self {
            Architecture::RiscV64 | Architecture::AArch64 | Architecture::x86_64 => Some(
                Size::new(8),
            ),
            Architecture::Unknown => None,
        }
    }
}

impl OperatingSystem {
    /// The calling convention of the system.
    pub fn calling_convention(self) -> (r: Option<CallingConvention>)
        ensures
            r == (match self {
                OperatingSystem::Linux => Some(CallingConvention::SystemV),
                OperatingSystem::Windows => Some(CallingConvention::Fastcall),
                OperatingSystem::Unknown => None::<CallingConvention>,
            }),
    {
        match self {
            OperatingSystem::Linux => Some(CallingConvention::SystemV),
            OperatingSystem::Windows => Some(CallingConvention::Fastcall),
            OperatingSystem::Unknown => None,
        }
    }
}

/// The data model of a target: LLP64 on 64-bit Windows, LP64 on 64-bit
/// Linux, none otherwise.
pub open spec fn data_model_of(t: Triple) -> Option<DataModel> {
    if !is_known_architecture(t.architecture) {
        None
    } else {
        match t.operating_system {
            OperatingSystem::Windows => Some(DataModel::LLP64),
            OperatingSystem::Linux => Some(DataModel::LP64),
            OperatingSystem::Unknown => None,
        }
    }
}

impl Triple {
    /// The triple with every component unknown.
    pub open spec fn unknown_spec() -> Triple {
        Triple {
            architecture: Architecture::Unknown,
            vendor: Vendor::Unknown,
            operating_system: OperatingSystem::Unknown,
            environment: Environment::Unknown,
            object_format: ObjectFormat::Unknown,
        }
    }

    /// The triple with every component unknown.
    pub fn unknown() -> (r: Self)
        ensures
            r == Triple::unknown_spec(),
    {
        Triple {
            architecture: Architecture::Unknown,
            vendor: Vendor::Unknown,
            operating_system: OperatingSystem::Unknown,
            environment: Environment::Unknown,
            object_format: ObjectFormat::Unknown,
        }
    }

    /// The byte order of the target's architecture.
    pub fn endianness(&self) -> (r: Option<Endianess>)
        ensures
            r == (if is_known_architecture(self.architecture) {
                Some(Endianess::Little)
            } else {
                None::<Endianess>
            }),
    {
        self.architecture.endianness()
    }

    /// The data model of the target, if it has one.
    pub fn data_model(&self) -> (r: Option<DataModel>)
        ensures
            r == data_model_of(*self),
    {
        let pointer_width = match self.architecture.pointer_width() {
            Some(w) => w,
            None => return None,
        };
        if pointer_width.get() != 8 {
            return None;
        }
        match self.operating_system {
            OperatingSystem::Windows => Some(DataModel::LLP64),
            OperatingSystem::Linux => Some(DataModel::LP64),
            OperatingSystem::Unknown => None,
        }
    }
}

impl DataModel {
    /// Whether plain `char` is signed.
    pub fn char_signess(self) -> (r: Signedness)
        ensures
            r == Signedness::Unsigned,
    {
        Signedness::Unsigned
    }

    /// Pointer size in bytes.
    pub fn pointer_width(self) -> (r: Size)
        ensures
            r@ == 8,
    {
        Size::new(8)
    }

    /// `char` size in bytes.
    pub fn char_size(self) -> (r: Size)
        ensures
            r@ == 1,
    {
        Size::new(1)
    }

    /// `short` size in bytes.
    pub fn short_size(self) -> (r: Size)
        ensures
            r@ == 2,
    {
        Size::new(2)
    }

    /// `int` size in bytes.
    pub fn int_size(self) -> (r: Size)
        ensures
            r@ == 4,
    {
        Size::new(4)
    }

    /// `long` size in bytes: 4 under LLP64, 8 under LP64.
    pub fn long_size(self) -> (r: Size)
        ensures
            r@ == (if self == DataModel::LLP64 {
                4nat
            } else {
                8nat
            }),
    {
        match self {
            DataModel::LLP64 => Size::new(4),
            DataModel::LP64 => Size::new(8),
        }
    }

    /// `long long` size in bytes.
    pub fn long_long_size(self) -> (r: Size)
        ensures
            r@ == 8,
    {
        Size::new(8)
    }

    /// `float` size in bytes.
    pub fn float_size(self) -> (r: Size)
        ensures
            r@ == 4,
    {
        Size::new(4)
    }

    /// `double` size in bytes.
    pub fn double_size(self) -> (r: Size)
        ensures
            r@ == 8,
    {
        Size::new(8)
    }

    /// `long double` size in bytes: 8 under LLP64, 16 under LP64.
    pub fn long_double_size(self) -> (r: Size)
        ensures
            r@ == (if self == DataModel::LLP64 {
                8nat
            } else {
                16nat
            }),
    {
        match self {
            DataModel::LLP64 => Size::new(8),
            DataModel::LP64 => Size::new(16),
        }
    }
}


impl Architecture {
    /// The name of the value.
    pub open spec fn name_spec(self) -> Seq<char> {
        match self {
            Architecture::Unknown => "unknown"@,
            Architecture::RiscV64 => "riscv64"@,
            Architecture::AArch64 => "aarch64"@,
            Architecture::x86_64 => "x86_64"@,
        }
    }

    /// The name of the value.
    pub fn name(&self) -> (r: &'static str)
        ensures
            r@ == self.name_spec(),
    {
        match self {
            Architecture::Unknown => "unknown",
            Architecture::RiscV64 => "riscv64",
            Architecture::AArch64 => "aarch64",
            Architecture::x86_64 => "x86_64",
        }
    }

    /// The value with the given name, if any.
    pub open spec fn parse_spec(s: Seq<char>) -> Option<Architecture> {
                if s == "unknown"@ {
            Some(Architecture::Unknown)
        } else         if s == "riscv64"@ {
            Some(Architecture::RiscV64)
        } else         if s == "aarch64"@ {
            Some(Architecture::AArch64)
        } else         if s == "x86_64"@ {
            Some(Architecture::x86_64)
        } else {
            None
        }
    }

    /// The value with the given name, if any.
    pub fn parse(s: &str) -> (r: Option<Architecture>)
        ensures
            r == Architecture::parse_spec(s@),
    {
        proof {
            reveal_strlit("unknown");
            reveal_strlit("riscv64");
            reveal_strlit("aarch64");
            reveal_strlit("x86_64");
        }
        if str_equal(s, "unknown") {
            return Some(Architecture::Unknown);
        }
        if str_equal(s, "riscv64") {
            return Some(Architecture::RiscV64);
        }
        if str_equal(s, "aarch64") {
            return Some(Architecture::AArch64);
        }
        if str_equal(s, "x86_64") {
            return Some(Architecture::x86_64);
        }
        None
    }
}

impl Vendor {
    /// The name of the value.
    pub open spec fn name_spec(self) -> Seq<char> {
        match self {
            Vendor::Unknown => "unknown"@,
            Vendor::PC => "pc"@,
        }
    }

    /// The name of the value.
    pub fn name(&self) -> (r: &'static str)
        ensures
            r@ == self.name_spec(),
    {
        match self {
            Vendor::Unknown => "unknown",
            Vendor::PC => "pc",
        }
    }

    /// The value with the given name, if any.
    pub open spec fn parse_spec(s: Seq<char>) -> Option<Vendor> {
                if s == "unknown"@ {
            Some(Vendor::Unknown)
        } else         if s == "pc"@ {
            Some(Vendor::PC)
        } else {
            None
        }
    }

    /// The value with the given name, if any.
    pub fn parse(s: &str) -> (r: Option<Vendor>)
        ensures
            r == Vendor::parse_spec(s@),
    {
        proof {
            reveal_strlit("unknown");
            reveal_strlit("pc");
        }
        if str_equal(s, "unknown") {
            return Some(Vendor::Unknown);
        }
        if str_equal(s, "pc") {
            return Some(Vendor::PC);
        }
        None
    }
}

impl OperatingSystem {
    /// The name of the value.
    pub open spec fn name_spec(self) -> Seq<char> {
        match self {
            OperatingSystem::Unknown => "unknown"@,
            OperatingSystem::Linux => "linux"@,
            OperatingSystem::Windows => "windows"@,
        }
    }

    /// The name of the value.
    pub fn name(&self) -> (r: &'static str)
        ensures
            r@ == self.name_spec(),
    {
        match self {
            OperatingSystem::Unknown => "unknown",
            OperatingSystem::Linux => "linux",
            OperatingSystem::Windows => "windows",
        }
    }

    /// The value with the given name, if any.
    pub open spec fn parse_spec(s: Seq<char>) -> Option<OperatingSystem> {
                if s == "unknown"@ {
            Some(OperatingSystem::Unknown)
        } else         if s == "linux"@ {
            Some(OperatingSystem::Linux)
        } else         if s == "windows"@ {
            Some(OperatingSystem::Windows)
        } else {
            None
        }
    }

    /// The value with the given name, if any.
    pub fn parse(s: &str) -> (r: Option<OperatingSystem>)
        ensures
            r == OperatingSystem::parse_spec(s@),
    {
        proof {
            reveal_strlit("unknown");
            reveal_strlit("linux");
            reveal_strlit("windows");
        }
        if str_equal(s, "unknown") {
            return Some(OperatingSystem::Unknown);
        }
        if str_equal(s, "linux") {
            return Some(OperatingSystem::Linux);
        }
        if str_equal(s, "windows") {
            return Some(OperatingSystem::Windows);
        }
        None
    }
}

impl Environment {
    /// The name of the value.
    pub open spec fn name_spec(self) -> Seq<char> {
        match self {
            Environment::Unknown => "unknown"@,
            Environment::GNU => "gnu"@,
            Environment::LLVM => "llvm"@,
            Environment::MSVC => "msvc"@,
        }
    }

    /// The name of the value.
    pub fn name(&self) -> (r: &'static str)
        ensures
            r@ == self.name_spec(),
    {
        match self {
            Environment::Unknown => "unknown",
            Environment::GNU => "gnu",
            Environment::LLVM => "llvm",
            Environment::MSVC => "msvc",
        }
    }

    /// The value with the given name, if any.
    pub open spec fn parse_spec(s: Seq<char>) -> Option<Environment> {
                if s == "unknown"@ {
            Some(Environment::Unknown)
        } else         if s == "gnu"@ {
            Some(Environment::GNU)
        } else         if s == "llvm"@ {
            Some(Environment::LLVM)
        } else         if s == "msvc"@ {
            Some(Environment::MSVC)
        } else {
            None
        }
    }

    /// The value with the given name, if any.
    pub fn parse(s: &str) -> (r: Option<Environment>)
        ensures
            r == Environment::parse_spec(s@),
    {
        proof {
            reveal_strlit("unknown");
            reveal_strlit("gnu");
            reveal_strlit("llvm");
            reveal_strlit("msvc");
        }
        if str_equal(s, "unknown") {
            return Some(Environment::Unknown);
        }
        if str_equal(s, "gnu") {
            return Some(Environment::GNU);
        }
        if str_equal(s, "llvm") {
            return Some(Environment::LLVM);
        }
        if str_equal(s, "msvc") {
            return Some(Environment::MSVC);
        }
        None
    }
}

impl ObjectFormat {
    /// The name of the value.
    pub open spec fn name_spec(self) -> Seq<char> {
        match self {
            ObjectFormat::Unknown => "Unknown"@,
            ObjectFormat::ELF => "ELF"@,
            ObjectFormat::COFF => "COFF"@,
        }
    }

    /// The name of the value.
    pub fn name(&self) -> (r: &'static str)
        ensures
            r@ == self.name_spec(),
    {
        match self {
            ObjectFormat::Unknown => "Unknown",
            ObjectFormat::ELF => "ELF",
            ObjectFormat::COFF => "COFF",
        }
    }

    /// The value with the given name, if any.
    pub open spec fn parse_spec(s: Seq<char>) -> Option<ObjectFormat> {
                if s == "Unknown"@ {
            Some(ObjectFormat::Unknown)
        } else         if s == "ELF"@ {
            Some(ObjectFormat::ELF)
        } else         if s == "COFF"@ {
            Some(ObjectFormat::COFF)
        } else {
            None
        }
    }

    /// The value with the given name, if any.
    pub fn parse(s: &str) -> (r: Option<ObjectFormat>)
        ensures
            r == ObjectFormat::parse_spec(s@),
    {
        proof {
            reveal_strlit("Unknown");
            reveal_strlit("ELF");
            reveal_strlit("COFF");
        }
        if str_equal(s, "Unknown") {
            return Some(ObjectFormat::Unknown);
        }
        if str_equal(s, "ELF") {
            return Some(ObjectFormat::ELF);
        }
        if str_equal(s, "COFF") {
            return Some(ObjectFormat::COFF);
        }
        None
    }
}

impl CallingConvention {
    /// The name of the value.
    pub open spec fn name_spec(self) -> Seq<char> {
        match self {
            CallingConvention::SystemV => "SystemV"@,
            CallingConvention::Fastcall => "Fastcall"@,
        }
    }

    /// The name of the value.
    pub fn name(&self) -> (r: &'static str)
        ensures
            r@ == self.name_spec(),
    {
        match self {
            CallingConvention::SystemV => "SystemV",
            CallingConvention::Fastcall => "Fastcall",
        }
    }

    /// The value with the given name, if any.
    pub open spec fn parse_spec(s: Seq<char>) -> Option<CallingConvention> {
                if s == "SystemV"@ {
            Some(CallingConvention::SystemV)
        } else         if s == "Fastcall"@ {
            Some(CallingConvention::Fastcall)
        } else {
            None
        }
    }

    /// The value with the given name, if any.
    pub fn parse(s: &str) -> (r: Option<CallingConvention>)
        ensures
            r == CallingConvention::parse_spec(s@),
    {
        proof {
            reveal_strlit("SystemV");
            reveal_strlit("Fastcall");
        }
        if str_equal(s, "SystemV") {
            return Some(CallingConvention::SystemV);
        }
        if str_equal(s, "Fastcall") {
            return Some(CallingConvention::Fastcall);
        }
        None
    }
}

impl Endianess {
    /// The name of the value.
    pub open spec fn name_spec(self) -> Seq<char> {
        match self {
            Endianess::Little => "Little"@,
            Endianess::Big => "Big"@,
        }
    }

    /// The name of the value.
    pub fn name(&self) -> (r: &'static str)
        ensures
            r@ == self.name_spec(),
    {
        match self {
            Endianess::Little => "Little",
            Endianess::Big => "Big",
        }
    }

    /// The value with the given name, if any.
    pub open spec fn parse_spec(s: Seq<char>) -> Option<Endianess> {
                if s == "Little"@ {
            Some(Endianess::Little)
        } else         if s == "Big"@ {
            Some(Endianess::Big)
        } else {
            None
        }
    }

    /// The value with the given name, if any.
    pub fn parse(s: &str) -> (r: Option<Endianess>)
        ensures
            r == Endianess::parse_spec(s@),
    {
        proof {
            reveal_strlit("Little");
            reveal_strlit("Big");
        }
        if str_equal(s, "Little") {
            return Some(Endianess::Little);
        }
        if str_equal(s, "Big") {
            return Some(Endianess::Big);
        }
        None
    }
}

impl DataModel {
    /// The name of the value.
    pub open spec fn name_spec(self) -> Seq<char> {
        match self {
            DataModel::LLP64 => "LLP64"@,
            DataModel::LP64 => "LP64"@,
        }
    }

    /// The name of the value.
    pub fn name(&self) -> (r: &'static str)
        ensures
            r@ == self.name_spec(),
    {
        match self {
            DataModel::LLP64 => "LLP64",
            DataModel::LP64 => "LP64",
        }
    }

    /// The value with the given name, if any.
    pub open spec fn parse_spec(s: Seq<char>) -> Option<DataModel> {
                if s == "LLP64"@ {
            Some(DataModel::LLP64)
        } else         if s == "LP64"@ {
            Some(DataModel::LP64)
        } else {
            None
        }
    }

    /// The value with the given name, if any.
    pub fn parse(s: &str) -> (r: Option<DataModel>)
        ensures
            r == DataModel::parse_spec(s@),
    {
        proof {
            reveal_strlit("LLP64");
            reveal_strlit("LP64");
        }
        if str_equal(s, "LLP64") {
            return Some(DataModel::LLP64);
        }
        if str_equal(s, "LP64") {
            return Some(DataModel::LP64);
        }
        None
    }
}

/// The architecture of a host by the name Rust gives it.
pub open spec fn host_architecture(arch: Seq<char>) -> Architecture {
    if arch == "riscv64gc"@ {
        Architecture::RiscV64
    } else if arch == "aarch64"@ {
        Architecture::AArch64
    } else if arch == "x86_64"@ {
        Architecture::x86_64
    } else {
        Architecture::Unknown
    }
}

/// The triple of a host, by the architecture and operating system names
/// Rust gives it: Linux hosts are `unknown-linux-gnu` with ELF objects,
/// Windows hosts `pc-windows-msvc` with COFF objects.
pub open spec fn host_triple(arch: Seq<char>, os: Seq<char>) -> Triple {
    Triple {
        architecture: host_architecture(arch),
        vendor: if os == "windows"@ {
            Vendor::PC
        } else {
            Vendor::Unknown
        },
        operating_system: if os == "linux"@ {
            OperatingSystem::Linux
        } else if os == "windows"@ {
            OperatingSystem::Windows
        } else {
            OperatingSystem::Unknown
        },
        environment: if os == "linux"@ {
            Environment::GNU
        } else if os == "windows"@ {
            Environment::MSVC
        } else {
            Environment::Unknown
        },
        object_format: if os == "linux"@ {
            ObjectFormat::ELF
        } else if os == "windows"@ {
            ObjectFormat::COFF
        } else {
            ObjectFormat::Unknown
        },
    }
}

impl Triple {
    /// The triple of a host, from the architecture and operating system
    /// names Rust gives it.
    pub fn host(arch: &str, os: &str) -> (r: Triple)
        ensures
            r == host_triple(arch@, os@),
    {
        let architecture = if str_equal(arch, "riscv64gc") {
            Architecture::RiscV64
        } else if str_equal(arch, "aarch64") {
            Architecture::AArch64
        } else if str_equal(arch, "x86_64") {
            Architecture::x86_64
        } else {
            Architecture::Unknown
        };
        let linux = str_equal(os, "linux");
        let windows = str_equal(os, "windows");
        proof {
            reveal_strlit("linux");
            reveal_strlit("windows");
            assert("linux"@.len() != "windows"@.len());
        }
        if linux {
            Triple {
                architecture,
                vendor: Vendor::Unknown,
                operating_system: OperatingSystem::Linux,
                environment: Environment::GNU,
                object_format: ObjectFormat::ELF,
            }
        } else if windows {
            Triple {
                architecture,
                vendor: Vendor::PC,
                operating_system: OperatingSystem::Windows,
                environment: Environment::MSVC,
                object_format: ObjectFormat::COFF,
            }
        } else {
            Triple {
                architecture,
                vendor: Vendor::Unknown,
                operating_system: OperatingSystem::Unknown,
                environment: Environment::Unknown,
                object_format: ObjectFormat::Unknown,
            }
        }
    }

    /// `arch-vendor-os-environment`, each in lower case.
    pub open spec fn text(self) -> Seq<char> {
        self.architecture.name_spec() + "-"@ + self.vendor.name_spec() + "-"@
            + self.operating_system.name_spec() + "-"@ + self.environment.name_spec()
    }

    /// `arch-vendor-os-environment`, each in lower case, such as
    /// `x86_64-unknown-linux-gnu`.
    pub fn to_string(&self) -> (r: String)
        ensures
            r@ == self.text(),
    {
        let mut out = String::new();
        out.append(self.architecture.name());
        out.append("-");
        out.append(self.vendor.name());
        out.append("-");
        out.append(self.operating_system.name());
        out.append("-");
        out.append(self.environment.name());
        out
    }
}

/// A host's architecture is the one Rust's name for it names: an
/// architecture that is recognised is named by the start of Rust's name
/// (`riscv64` of `riscv64gc`), and a Rust name that is an architecture's
/// own name, `aarch64` or `x86_64`, gives that architecture. Its operating
/// system is the one the Rust name names, if any.
pub proof fn law_host_architecture_named(arch: Seq<char>, os: Seq<char>)
    ensures
        host_triple(arch, os).architecture != Architecture::Unknown
            ==> host_triple(arch, os).architecture.name_spec().is_prefix_of(arch),
        (Architecture::parse_spec(arch) == Some(Architecture::AArch64) || Architecture::parse_spec(arch) == Some(
            Architecture::x86_64,
        )) ==> Some(host_triple(arch, os).architecture) == Architecture::parse_spec(arch),
        host_triple(arch, os).operating_system != OperatingSystem::Unknown
            ==> host_triple(arch, os).operating_system.name_spec() == os,
        (OperatingSystem::parse_spec(os) == Some(OperatingSystem::Linux) || OperatingSystem::parse_spec(os) == Some(
            OperatingSystem::Windows,
        )) ==> Some(host_triple(arch, os).operating_system) == OperatingSystem::parse_spec(os),
{
    reveal_strlit("riscv64gc");
    reveal_strlit("riscv64");
    reveal_strlit("aarch64");
    reveal_strlit("x86_64");
    reveal_strlit("unknown");
    reveal_strlit("linux");
    reveal_strlit("windows");
    if arch == "riscv64gc"@ {
        assert("riscv64"@ =~= arch.subrange(0, 7));
    } else if arch == "aarch64"@ {
        assert("aarch64"@ =~= arch.subrange(0, 7));
    } else if arch == "x86_64"@ {
        assert("x86_64"@ =~= arch.subrange(0, 6));
    }
}

/// The parts of a host triple agree with its operating system: a Linux
/// host is `unknown` vendor, GNU environment and ELF objects, a Windows
/// host `pc` vendor, MSVC environment and COFF objects, and a host of an
/// unknown system knows none of them. The architecture does not depend on
/// the system.
pub proof fn law_host_parts_agree(arch: Seq<char>, os: Seq<char>, other_os: Seq<char>)
    ensures
        host_triple(arch, os).operating_system == OperatingSystem::Linux ==> {
            &&& host_triple(arch, os).vendor == Vendor::Unknown
            &&& host_triple(arch, os).environment == Environment::GNU
            &&& host_triple(arch, os).object_format == ObjectFormat::ELF
        },
        host_triple(arch, os).operating_system == OperatingSystem::Windows ==> {
            &&& host_triple(arch, os).vendor == Vendor::PC
            &&& host_triple(arch, os).environment == Environment::MSVC
            &&& host_triple(arch, os).object_format == ObjectFormat::COFF
        },
        host_triple(arch, os).operating_system == OperatingSystem::Unknown ==> {
            &&& host_triple(arch, os).vendor == Vendor::Unknown
            &&& host_triple(arch, os).environment == Environment::Unknown
            &&& host_triple(arch, os).object_format == ObjectFormat::Unknown
        },
        host_triple(arch, os).architecture == host_triple(arch, other_os).architecture,
{
    reveal_strlit("linux");
    reveal_strlit("windows");
    assert("linux"@.len() != "windows"@.len());
    if os == "linux"@ {
        assert(os != "windows"@);
    }
}

/// Reading back a name: the name of every architecture, vendor, operating
/// system, environment, object format, calling convention, byte order and
/// data model parses to that value.
pub proof fn law_names_parse_back(a: Architecture, v: Vendor, o: OperatingSystem, e: Environment, f: ObjectFormat, c: CallingConvention, n: Endianess, d: DataModel)
    ensures
        Architecture::parse_spec(a.name_spec()) == Some(a),
        Vendor::parse_spec(v.name_spec()) == Some(v),
        OperatingSystem::parse_spec(o.name_spec()) == Some(o),
        Environment::parse_spec(e.name_spec()) == Some(e),
        ObjectFormat::parse_spec(f.name_spec()) == Some(f),
        CallingConvention::parse_spec(c.name_spec()) == Some(c),
        Endianess::parse_spec(n.name_spec()) == Some(n),
        DataModel::parse_spec(d.name_spec()) == Some(d),
{
    {
        reveal_strlit("unknown");
        reveal_strlit("riscv64");
        reveal_strlit("aarch64");
        reveal_strlit("x86_64");
        match a {
            Architecture::Unknown => {

            },
            Architecture::RiscV64 => {
                assert("riscv64"@[0] != "unknown"@[0]);
            },
            Architecture::AArch64 => {
                assert("aarch64"@[0] != "unknown"@[0]);
                assert("aarch64"@[0] != "riscv64"@[0]);
            },
            Architecture::x86_64 => {
                assert("x86_64"@.len() != "unknown"@.len());
                assert("x86_64"@.len() != "riscv64"@.len());
                assert("x86_64"@.len() != "aarch64"@.len());
            },
        }
    }
    {
        reveal_strlit("unknown");
        reveal_strlit("pc");
        match v {
            Vendor::Unknown => {

            },
            Vendor::PC => {
                assert("pc"@.len() != "unknown"@.len());
            },
        }
    }
    {
        reveal_strlit("unknown");
        reveal_strlit("linux");
        reveal_strlit("windows");
        match o {
            OperatingSystem::Unknown => {

            },
            OperatingSystem::Linux => {
                assert("linux"@.len() != "unknown"@.len());
            },
            OperatingSystem::Windows => {
                assert("windows"@[0] != "unknown"@[0]);
                assert("windows"@.len() != "linux"@.len());
            },
        }
    }
    {
        reveal_strlit("unknown");
        reveal_strlit("gnu");
        reveal_strlit("llvm");
        reveal_strlit("msvc");
        match e {
            Environment::Unknown => {

            },
            Environment::GNU => {
                assert("gnu"@.len() != "unknown"@.len());
            },
            Environment::LLVM => {
                assert("llvm"@.len() != "unknown"@.len());
                assert("llvm"@.len() != "gnu"@.len());
            },
            Environment::MSVC => {
                assert("msvc"@.len() != "unknown"@.len());
                assert("msvc"@.len() != "gnu"@.len());
                assert("msvc"@[0] != "llvm"@[0]);
            },
        }
    }
    {
        reveal_strlit("Unknown");
        reveal_strlit("ELF");
        reveal_strlit("COFF");
        match f {
            ObjectFormat::Unknown => {

            },
            ObjectFormat::ELF => {
                assert("ELF"@.len() != "Unknown"@.len());
            },
            ObjectFormat::COFF => {
                assert("COFF"@.len() != "Unknown"@.len());
                assert("COFF"@.len() != "ELF"@.len());
            },
        }
    }
    {
        reveal_strlit("SystemV");
        reveal_strlit("Fastcall");
        match c {
            CallingConvention::SystemV => {

            },
            CallingConvention::Fastcall => {
                assert("Fastcall"@.len() != "SystemV"@.len());
            },
        }
    }
    {
        reveal_strlit("Little");
        reveal_strlit("Big");
        match n {
            Endianess::Little => {

            },
            Endianess::Big => {
                assert("Big"@.len() != "Little"@.len());
            },
        }
    }
    {
        reveal_strlit("LLP64");
        reveal_strlit("LP64");
        match d {
            DataModel::LLP64 => {

            },
            DataModel::LP64 => {
                assert("LP64"@.len() != "LLP64"@.len());
            },
        }
    }
}

} // verus!
