//! Configuration for launching the `mspdebug` child process: which
//! driver it talks to, where the binary lives, and whether the child
//! runs in its own process group.

use vstd::prelude::*;

verus! {

/// The `mspdebug` hardware driver the session talks through.
#[derive(Clone, Copy, Debug, PartialEq, Eq, Structural)]
pub enum TargetDriver {
    /// eZ430-RF2500 devices (USB)
    Rf2500,
    /// Olimex MSP-JTAG-TINY
    Olimex,
    /// Olimex MSP-JTAG-TINY (V1)
    Olimexv1,
    /// Olimex MSP-JTAG-ISO
    OlimexIso,
    /// Olimex MSP430-JTAG-ISO-MK2
    OlimexIsoMk2,
    /// Simulation mode (standard CPU)
    Sim,
    /// CPUX Simulation mode
    SimX,
    /// TI FET430UIF and compatible devices (e.g. eZ430)
    Uif,
    /// TI FET430UIF bootloader
    UifBsl,
    /// TI generic flash-based bootloader via RS-232
    FlashBsl,
    /// GDB client mode
    GdbClient,
    /// TI MSP430 library
    Tilib,
    /// GoodFET MSP430 JTAG
    GoodFet,
    /// Parallel Port JTAG
    Pif,
    /// /sys/class/gpio direct connect
    Gpio,
    /// Loadable USB BSL driver (USB 5xx/6xx).
    LoadBsl,
    /// Texas Instruments eZ-FET
    EzFet,
    /// ROM bootstrap loader
    RomBsl,
    /// Bus Pirate JTAG, MISO-TDO, MOSI-TDI, CS-TMS, AUX-RESET, CLK-TCK
    BusPirate,
    /// MehFET USB JTAG/SBW device
    MehFet,
}

/// The name under which `mspdebug` knows each driver, as passed on its
/// command line.
pub open spec fn driver_name(d: TargetDriver) -> Seq<char> {
    match d {
        TargetDriver::Rf2500 => "rf2500"@,
        TargetDriver::Olimex => "olimex"@,
        TargetDriver::Olimexv1 => "olimex-v1"@,
        TargetDriver::OlimexIso => "olimex-iso"@,
        TargetDriver::OlimexIsoMk2 => "olimex-iso-mk2"@,
        TargetDriver::Sim => "sim"@,
        TargetDriver::SimX => "simx"@,
        TargetDriver::Uif => "uif"@,
        TargetDriver::UifBsl => "uif-bsl"@,
        TargetDriver::FlashBsl => "flash-bsl"@,
        TargetDriver::GdbClient => "gdbc"@,
        TargetDriver::Tilib => "tilib"@,
        TargetDriver::GoodFet => "goodfet"@,
        TargetDriver::Pif => "pif"@,
        TargetDriver::Gpio => "gpio"@,
        TargetDriver::LoadBsl => "load-bsl"@,
        TargetDriver::EzFet => "ezfet"@,
        TargetDriver::RomBsl => "rom-bsl"@,
        TargetDriver::BusPirate => "bus-pirate"@,
        TargetDriver::MehFet => "mehfet"@,
    }
}

impl TargetDriver {
    /// The driver's name on the `mspdebug` command line.
    pub fn arg_name(&self) -> (r: &'static str)
        ensures
            r@ == driver_name(*self),
    {
        match self {
            TargetDriver::Rf2500 => "rf2500",
            TargetDriver::Olimex => "olimex",
            TargetDriver::Olimexv1 => "olimex-v1",
            TargetDriver::OlimexIso => "olimex-iso",
            TargetDriver::OlimexIsoMk2 => "olimex-iso-mk2",
            TargetDriver::Sim => "sim",
            TargetDriver::SimX => "simx",
            TargetDriver::Uif => "uif",
            TargetDriver::UifBsl => "uif-bsl",
            TargetDriver::FlashBsl => "flash-bsl",
            TargetDriver::GdbClient => "gdbc",
            TargetDriver::Tilib => "tilib",
            TargetDriver::GoodFet => "goodfet",
            TargetDriver::Pif => "pif",
            TargetDriver::Gpio => "gpio",
            TargetDriver::LoadBsl => "load-bsl",
            TargetDriver::EzFet => "ezfet",
            TargetDriver::RomBsl => "rom-bsl",
            TargetDriver::BusPirate => "bus-pirate",
            TargetDriver::MehFet => "mehfet",
        }
    }
}

/// The ghost image of a [`Cfg`]: the same fields over mathematical types.
pub struct CfgView {
    pub binary: Seq<char>,
    pub driver: TargetDriver,
    pub quiet: bool,
    pub group: bool,
}

/// How to launch `mspdebug`: the binary to run, the hardware driver to
/// select, whether to pass `-q`, and whether the child gets its own
/// process group.
pub struct Cfg {
    binary: String,
    driver: TargetDriver,
    quiet: bool,
    group: bool,
}

impl View for Cfg {
    type V = CfgView;

    closed spec fn view(&self) -> CfgView {
        CfgView {
            binary: self.binary@,
            driver: self.driver,
            quiet: self.quiet,
            group: self.group,
        }
    }
}

impl Cfg {
    /// The default configuration: `mspdebug` found on the search path,
    /// simulation mode, quiet output, no separate process group.
    pub fn new() -> (r: Self)
        ensures
            r@ == (CfgView { binary: "mspdebug"@, driver: TargetDriver::Sim, quiet: true, group: false }),
    {
        Cfg { binary: "mspdebug".to_owned(), driver: TargetDriver::Sim, quiet: true, group: false }
    }

    /// Select the `mspdebug` binary to run.
    pub fn binary(self, binary: String) -> (r: Cfg)
        ensures
            r@ == (CfgView { binary: binary@, ..self@ }),
    {
        Cfg { binary, ..self }
    }

    /// Select the hardware driver.
    pub fn driver(self, driver: TargetDriver) -> (r: Cfg)
        ensures
            r@ == (CfgView { driver, ..self@ }),
    {
        Cfg { driver, ..self }
    }

    /// Choose whether the child runs in its own process group.
    pub fn group(self, group: bool) -> (r: Cfg)
        ensures
            r@ == (CfgView { group, ..self@ }),
    {
        Cfg { group, ..self }
    }

    // Not part of the public API for now. For testing.
    #[allow(unused)]
    fn quiet(self, quiet: bool) -> (r: Cfg)
        ensures
            r@ == (CfgView { quiet, ..self@ }),
    {
        Cfg { quiet, ..self }
    }

    /// The path of the binary to launch.
    pub fn binary_path(&self) -> (r: &String)
        ensures
            r@ == self@.binary,
    {
        &self.binary
    }

    /// The selected hardware driver.
    pub fn driver_kind(&self) -> (r: TargetDriver)
        ensures
            r == self@.driver,
    {
        self.driver
    }

    /// Whether the child is to run in its own process group.
    pub fn is_grouped(&self) -> (r: bool)
        ensures
            r == self@.group,
    {
        self.group
    }

    /// Whether the selected driver is the simulator, which has no
    /// physical configuration memory to protect.
    pub fn is_sim(&self) -> (r: bool)
        ensures
            r == (self@.driver == TargetDriver::Sim),
    {
        self.driver == TargetDriver::Sim
    }

    /// The argument list handed to the `mspdebug` binary: the embedded
    /// protocol switch, the driver name, and `-q` when quiet.
    pub fn mspdebug_args(&self) -> (r: Vec<String>)
        ensures
            r.deep_view() == seq!["--embedded"@, driver_name(self@.driver)]
                + (if self@.quiet { seq!["-q"@] } else { Seq::<Seq<char>>::empty() }),
    {
        let mut args: Vec<String> = Vec::new();
        args.push("--embedded".to_owned());
        args.push(self.driver.arg_name().to_owned());
        if self.quiet {
            args.push("-q".to_owned());
        }
        proof {
            let expected = seq!["--embedded"@, driver_name(self@.driver)]
                + (if self@.quiet { seq!["-q"@] } else { Seq::<Seq<char>>::empty() });
            assert(args.deep_view() =~= expected);
        }
        args
    }
}

} // verus!
