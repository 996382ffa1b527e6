//! The programmer's targets and the status that an operation reports.

use vstd::prelude::*;

verus! {

/// Executable that drives CH347 adapters.
pub const OPENOCD_CH347_PATH: &'static str = "OpenOCD/openocd-347.exe";

/// Executable that drives RS232 (FTDI) adapters.
pub const OPENOCD_RS232_PATH: &'static str = "OpenOCD/openocd.exe";

/// A device identifier read from a chip.
#[derive(Debug, PartialEq, Eq)]
pub struct DnaInfo {
    /// Hexadecimal form, with its `0x` prefix.
    pub dna_value: String,
    /// Binary digits as the tool printed them.
    pub dna_raw_value: String,
    pub device_type: String,
}

pub struct DnaInfoView {
    pub dna_value: Seq<char>,
    pub dna_raw_value: Seq<char>,
    pub device_type: Seq<char>,
}

impl View for DnaInfo {
    type V = DnaInfoView;

    open spec fn view(&self) -> DnaInfoView {
        DnaInfoView {
            dna_value: self.dna_value@,
            dna_raw_value: self.dna_raw_value@,
            device_type: self.device_type@,
        }
    }
}

impl Clone for DnaInfo {
    fn clone(&self) -> (r: Self)
        ensures
            r == *self,
    {
        DnaInfo {
            dna_value: self.dna_value.clone(),
            dna_raw_value: self.dna_raw_value.clone(),
            device_type: self.device_type.clone(),
        }
    }
}

/// A target board together with the adapter that reaches it.
#[allow(non_camel_case_types)]
#[derive(Debug, Clone, Copy, PartialEq, Eq, Structural)]
pub enum FlashingOption {
    CH347_35T,
    CH347_75T,
    CH347_100T,
    RS232_35T,
    RS232_75T,
    DnaCH347,
    DnaRS232_35T,
    DnaRS232_75T,
}

impl FlashingOption {
    /// The option reads the device DNA.
    pub open spec fn dna_read(self) -> bool {
        self is DnaCH347 || self is DnaRS232_35T || self is DnaRS232_75T
    }

    /// The option writes firmware.
    pub open spec fn flash_operation(self) -> bool {
        self is CH347_35T || self is CH347_75T || self is CH347_100T || self is RS232_35T
            || self is RS232_75T
    }

    /// The option goes through a CH347 adapter.
    pub open spec fn uses_ch347(self) -> bool {
        self is CH347_35T || self is CH347_75T || self is CH347_100T || self is DnaCH347
    }

    pub open spec fn executable(self) -> Seq<char> {
        if self.uses_ch347() {
            "OpenOCD/openocd-347.exe"@
        } else {
            "OpenOCD/openocd.exe"@
        }
    }

    pub open spec fn config(self) -> Seq<char> {
        match self {
            FlashingOption::CH347_35T => "OpenOCD/flash/xc7a35T.cfg"@,
            FlashingOption::CH347_75T => "OpenOCD/flash/xc7a75T.cfg"@,
            FlashingOption::CH347_100T => "OpenOCD/flash/xc7a100T.cfg"@,
            FlashingOption::RS232_35T => "OpenOCD/flash/xc7a35T_rs232.cfg"@,
            FlashingOption::RS232_75T => "OpenOCD/flash/xc7a75T_rs232.cfg"@,
            FlashingOption::DnaCH347 => "OpenOCD/DNA/init_347.cfg"@,
            FlashingOption::DnaRS232_35T => "OpenOCD/DNA/init_232_35t.cfg"@,
            FlashingOption::DnaRS232_75T => "OpenOCD/DNA/init_232_75t.cfg"@,
        }
    }

    pub open spec fn display_name(self) -> Seq<char> {
        match self {
            FlashingOption::CH347_35T => "CH347 - 35T"@,
            FlashingOption::CH347_75T => "CH347 - 75T"@,
            FlashingOption::CH347_100T => "CH347 - Stark100T"@,
            FlashingOption::DnaCH347 => "CH347 - 35T, 75T, 100T DNA Read"@,
            FlashingOption::RS232_35T => "RS232 - 35T"@,
            FlashingOption::RS232_75T => "RS232 - 75T"@,
            FlashingOption::DnaRS232_35T => "RS232 - 35T DNA Read"@,
            FlashingOption::DnaRS232_75T => "RS232 - 75T DNA Read"@,
        }
    }

    pub open spec fn driver_type(self) -> Seq<char> {
        if self.uses_ch347() {
            "CH347 USB Driver"@
        } else {
            "FTDI Driver"@
        }
    }

    pub fn is_dna_read(&self) -> (b: bool)
        ensures
            b == self.dna_read(),
    {
        match self {
            FlashingOption::DnaCH347
            | FlashingOption::DnaRS232_35T
            | FlashingOption::DnaRS232_75T => true,
            _ => false,
        }
    }

    pub fn is_flash_operation(&self) -> (b: bool)
        ensures
            b == self.flash_operation(),
    {
        match self {
            FlashingOption::CH347_35T
            | FlashingOption::CH347_75T
            | FlashingOption::CH347_100T
            | FlashingOption::RS232_35T
            | FlashingOption::RS232_75T => true,
            _ => false,
        }
    }

    /// The executable and the configuration file, relative to the tool's
    /// directory.
    pub fn get_command_args(&self) -> (r: (&'static str, &'static str))
        ensures
            r.0@ == self.executable(),
            r.1@ == self.config(),
            r.0@.len() > 0,
            r.1@.len() > 0,
    {
        proof {
            lemma_command_args_nonempty(*self);
        }
        match self {
            FlashingOption::CH347_35T => ("OpenOCD/openocd-347.exe", "OpenOCD/flash/xc7a35T.cfg"),
            FlashingOption::CH347_75T => ("OpenOCD/openocd-347.exe", "OpenOCD/flash/xc7a75T.cfg"),
            FlashingOption::CH347_100T => (
                "OpenOCD/openocd-347.exe",
                "OpenOCD/flash/xc7a100T.cfg",
            ),
            FlashingOption::RS232_35T => ("OpenOCD/openocd.exe", "OpenOCD/flash/xc7a35T_rs232.cfg"),
            FlashingOption::RS232_75T => ("OpenOCD/openocd.exe", "OpenOCD/flash/xc7a75T_rs232.cfg"),
            FlashingOption::DnaCH347 => ("OpenOCD/openocd-347.exe", "OpenOCD/DNA/init_347.cfg"),
            FlashingOption::DnaRS232_35T => ("OpenOCD/openocd.exe", "OpenOCD/DNA/init_232_35t.cfg"),
            FlashingOption::DnaRS232_75T => ("OpenOCD/openocd.exe", "OpenOCD/DNA/init_232_75t.cfg"),
        }
    }

    pub fn get_display_name(&self) -> (name: &'static str)
        ensures
            name@ == self.display_name(),
    {
        match self {
            FlashingOption::CH347_35T => "CH347 - 35T",
            FlashingOption::CH347_75T => "CH347 - 75T",
            FlashingOption::CH347_100T => "CH347 - Stark100T",
            FlashingOption::DnaCH347 => "CH347 - 35T, 75T, 100T DNA Read",
            FlashingOption::RS232_35T => "RS232 - 35T",
            FlashingOption::RS232_75T => "RS232 - 75T",
            FlashingOption::DnaRS232_35T => "RS232 - 35T DNA Read",
            FlashingOption::DnaRS232_75T => "RS232 - 75T DNA Read",
        }
    }

    pub fn get_driver_type(&self) -> (name: &'static str)
        ensures
            name@ == self.driver_type(),
    {
        match self {
            FlashingOption::CH347_35T
            | FlashingOption::CH347_75T
            | FlashingOption::CH347_100T
            | FlashingOption::DnaCH347 => "CH347 USB Driver",
            FlashingOption::RS232_35T
            | FlashingOption::RS232_75T
            | FlashingOption::DnaRS232_35T
            | FlashingOption::DnaRS232_75T => "FTDI Driver",
        }
    }
}

/// Every option is either a DNA read or a flash operation, never both.
pub proof fn lemma_operation_kinds_partition(option: FlashingOption)
    ensures
        option.dna_read() != option.flash_operation(),
{
}

/// Every option names an executable and a configuration file.
pub proof fn lemma_command_args_nonempty(option: FlashingOption)
    ensures
        option.executable().len() > 0,
        option.config().len() > 0,
{
    reveal_strlit("OpenOCD/openocd-347.exe");
    reveal_strlit("OpenOCD/openocd.exe");
    reveal_strlit("OpenOCD/flash/xc7a35T.cfg");
    reveal_strlit("OpenOCD/flash/xc7a75T.cfg");
    reveal_strlit("OpenOCD/flash/xc7a100T.cfg");
    reveal_strlit("OpenOCD/flash/xc7a35T_rs232.cfg");
    reveal_strlit("OpenOCD/flash/xc7a75T_rs232.cfg");
    reveal_strlit("OpenOCD/DNA/init_347.cfg");
    reveal_strlit("OpenOCD/DNA/init_232_35t.cfg");
    reveal_strlit("OpenOCD/DNA/init_232_75t.cfg");
}

/// Where an operation stands.
#[derive(Debug, PartialEq, Eq)]
pub enum CompletionStatus {
    NotCompleted,
    InProgress(String),
    /// The flashing process exited successfully.
    Completed,
    /// The device DNA was read.
    DnaReadCompleted(DnaInfo),
    Failed(String),
}

pub enum StatusView {
    NotCompleted,
    InProgress(Seq<char>),
    Completed,
    DnaReadCompleted(DnaInfoView),
    Failed(Seq<char>),
}

impl StatusView {
    /// The operation has ended, well or badly.
    pub open spec fn terminal(self) -> bool {
        self is Completed || self is DnaReadCompleted || self is Failed
    }
}

impl View for CompletionStatus {
    type V = StatusView;

    open spec fn view(&self) -> StatusView {
        match self {
            CompletionStatus::NotCompleted => StatusView::NotCompleted,
            CompletionStatus::InProgress(m) => StatusView::InProgress(m@),
            CompletionStatus::Completed => StatusView::Completed,
            CompletionStatus::DnaReadCompleted(info) => StatusView::DnaReadCompleted(info@),
            CompletionStatus::Failed(reason) => StatusView::Failed(reason@),
        }
    }
}

impl Clone for CompletionStatus {
    fn clone(&self) -> (r: Self)
        ensures
            r == *self,
    {
        match self {
            CompletionStatus::NotCompleted => CompletionStatus::NotCompleted,
            CompletionStatus::InProgress(m) => CompletionStatus::InProgress(m.clone()),
            CompletionStatus::Completed => CompletionStatus::Completed,
            CompletionStatus::DnaReadCompleted(info) => CompletionStatus::DnaReadCompleted(
                info.clone(),
            ),
            CompletionStatus::Failed(reason) => CompletionStatus::Failed(reason.clone()),
        }
    }
}

impl DnaInfo {
    /// Tests whether two identifiers read the same.
    pub fn same_as(&self, other: &DnaInfo) -> (b: bool)
        ensures
            b == (self@ == other@),
    {
        self.dna_value == other.dna_value && self.dna_raw_value == other.dna_raw_value
            && self.device_type == other.device_type
    }
}

impl CompletionStatus {
    /// Tests whether two statuses read the same.
    pub fn same_as(&self, other: &CompletionStatus) -> (b: bool)
        ensures
            b == (self@ == other@),
    {
        match (self, other) {
            (CompletionStatus::NotCompleted, CompletionStatus::NotCompleted) => true,
            (CompletionStatus::InProgress(a), CompletionStatus::InProgress(b)) => *a == *b,
            (CompletionStatus::Completed, CompletionStatus::Completed) => true,
            (CompletionStatus::DnaReadCompleted(a), CompletionStatus::DnaReadCompleted(b)) =>
                a.same_as(b),
            (CompletionStatus::Failed(a), CompletionStatus::Failed(b)) => *a == *b,
            _ => false,
        }
    }

    /// Tests whether the operation has ended.
    pub fn is_terminal(&self) -> (b: bool)
        ensures
            b == self@.terminal(),
    {
        match self {
            CompletionStatus::Completed
            | CompletionStatus::DnaReadCompleted(_)
            | CompletionStatus::Failed(_) => true,
            _ => false,
        }
    }
}

} // verus!
