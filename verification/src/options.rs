//! How a compile request is formed: the assembly dialect, the optimization
//! level and the kind of artifact to emit.

use std::str::FromStr;
use vstd::prelude::*;

use crate::error::StringError;
use crate::text::{join, str_eq};

verus! {

/// The syntax in which assembly is written out.
#[derive(Debug, PartialEq, Eq, Copy, Clone, Structural)]
pub enum AsmFlavor {
    Att,
    Intel,
}

impl AsmFlavor {
    /// The dialect's name.
    pub open spec fn name(self) -> Seq<char> {
        match self {
            AsmFlavor::Att => "att"@,
            AsmFlavor::Intel => "intel"@,
        }
    }

    /// The dialect that a text names, if it names one. Exact and case-sensitive.
    pub open spec fn parse(text: Seq<char>) -> Option<AsmFlavor> {
        if text == "att"@ {
            Some(AsmFlavor::Att)
        } else if text == "intel"@ {
            Some(AsmFlavor::Intel)
        } else {
            None
        }
    }

    /// What the error says of a text that names no dialect.
    pub open spec fn parse_failure(text: Seq<char>) -> Seq<char> {
        "unknown asm dialect "@ + text
    }

    /// The dialect's name.
    pub fn as_str(&self) -> (name: &'static str)
        ensures
            name@ == self.name(),
    {
        match *self {
            AsmFlavor::Att => "att",
            AsmFlavor::Intel => "intel",
        }
    }

    /// Two dialects with one name are the same dialect.
    pub proof fn lemma_names_distinct(a: AsmFlavor, b: AsmFlavor)
        ensures
            a.name() == b.name() ==> a == b,
    {
        reveal_strlit("att");
        reveal_strlit("intel");
        assert("att"@.len() == 3 && "intel"@.len() == 5);
    }

    /// A text parses to a dialect exactly when it is that dialect's name.
    pub proof fn lemma_parse_inverts_name(text: Seq<char>, flavor: AsmFlavor)
        ensures
            Self::parse(text) == Some(flavor) <==> text == flavor.name(),
    {
        Self::lemma_names_distinct(AsmFlavor::Att, AsmFlavor::Intel);
    }
}

impl FromStr for AsmFlavor {
    type Err = StringError;

    fn from_str(s: &str) -> (parsed: Result<Self, Self::Err>)
        ensures
            match parsed {
                Ok(flavor) => Self::parse(s@) == Some(flavor),
                Err(error) => Self::parse(s@) is None && error@ == Self::parse_failure(s@),
            },
    {
        if str_eq(s, "att") {
            Ok(AsmFlavor::Att)
        } else if str_eq(s, "intel") {
            Ok(AsmFlavor::Intel)
        } else {
            Err(StringError(join("unknown asm dialect ", s)))
        }
    }
}

/// How hard the compiler optimizes.
#[derive(Debug, PartialEq, Eq, Copy, Clone, Structural)]
pub enum OptLevel {
    O0,
    O1,
    O2,
    O3,
}

impl OptLevel {
    /// The level as a number.
    pub open spec fn level(self) -> u8 {
        match self {
            OptLevel::O0 => 0,
            OptLevel::O1 => 1,
            OptLevel::O2 => 2,
            OptLevel::O3 => 3,
        }
    }

    /// The level as it is written: one digit.
    pub open spec fn name(self) -> Seq<char> {
        match self {
            OptLevel::O0 => "0"@,
            OptLevel::O1 => "1"@,
            OptLevel::O2 => "2"@,
            OptLevel::O3 => "3"@,
        }
    }

    /// The level that a text names, if it names one.
    pub open spec fn parse(text: Seq<char>) -> Option<OptLevel> {
        if text == "0"@ {
            Some(OptLevel::O0)
        } else if text == "1"@ {
            Some(OptLevel::O1)
        } else if text == "2"@ {
            Some(OptLevel::O2)
        } else if text == "3"@ {
            Some(OptLevel::O3)
        } else {
            None
        }
    }

    /// What the error says of a text that names no level.
    pub open spec fn parse_failure(text: Seq<char>) -> Seq<char> {
        "unknown optimization level "@ + text
    }

    /// The level as a number from 0 to 3.
    pub fn as_u8(&self) -> (level: u8)
        ensures
            level == self.level(),
    {
        match *self {
            OptLevel::O0 => 0,
            OptLevel::O1 => 1,
            OptLevel::O2 => 2,
            OptLevel::O3 => 3,
        }
    }

    /// Two levels with one number or one name are the same level.
    pub proof fn lemma_levels_distinct(a: OptLevel, b: OptLevel)
        ensures
            a.level() == b.level() ==> a == b,
            a.name() == b.name() ==> a == b,
    {
        reveal_strlit("0");
        reveal_strlit("1");
        reveal_strlit("2");
        reveal_strlit("3");
        assert("0"@[0] == '0' && "1"@[0] == '1' && "2"@[0] == '2' && "3"@[0] == '3');
    }

    /// A text parses to a level exactly when it is that level's name.
    pub proof fn lemma_parse_inverts_name(text: Seq<char>, level: OptLevel)
        ensures
            Self::parse(text) == Some(level) <==> text == level.name(),
    {
        Self::lemma_levels_distinct(OptLevel::O0, OptLevel::O1);
        Self::lemma_levels_distinct(OptLevel::O0, OptLevel::O2);
        Self::lemma_levels_distinct(OptLevel::O0, OptLevel::O3);
        Self::lemma_levels_distinct(OptLevel::O1, OptLevel::O2);
        Self::lemma_levels_distinct(OptLevel::O1, OptLevel::O3);
        Self::lemma_levels_distinct(OptLevel::O2, OptLevel::O3);
    }
}

impl FromStr for OptLevel {
    type Err = StringError;

    fn from_str(s: &str) -> (parsed: Result<Self, Self::Err>)
        ensures
            match parsed {
                Ok(level) => Self::parse(s@) == Some(level),
                Err(error) => Self::parse(s@) is None && error@ == Self::parse_failure(s@),
            },
    {
        if str_eq(s, "0") {
            Ok(OptLevel::O0)
        } else if str_eq(s, "1") {
            Ok(OptLevel::O1)
        } else if str_eq(s, "2") {
            Ok(OptLevel::O2)
        } else if str_eq(s, "3") {
            Ok(OptLevel::O3)
        } else {
            Err(StringError(join("unknown optimization level ", s)))
        }
    }
}

/// The kind of artifact a compile request emits.
#[derive(Debug, PartialEq, Eq, Copy, Clone, Structural)]
pub enum CompileOutput {
    Asm,
    Llvm,
    Mir,
}

impl CompileOutput {
    /// The kind's name.
    pub open spec fn name(self) -> Seq<char> {
        match self {
            CompileOutput::Asm => "asm"@,
            CompileOutput::Llvm => "llvm-ir"@,
            CompileOutput::Mir => "mir"@,
        }
    }

    /// The compiler options that ask for the kind, in their order.
    pub open spec fn options(self) -> Seq<Seq<char>> {
        match self {
            CompileOutput::Asm => seq!["--emit=asm"@],
            CompileOutput::Llvm => seq!["--emit=llvm-ir"@],
            CompileOutput::Mir => seq!["-Zunstable-options"@, "--unpretty=mir"@],
        }
    }

    /// The kind that a text names, if it names one. Exact and case-sensitive.
    pub open spec fn parse(text: Seq<char>) -> Option<CompileOutput> {
        if text == "asm"@ {
            Some(CompileOutput::Asm)
        } else if text == "llvm-ir"@ {
            Some(CompileOutput::Llvm)
        } else if text == "mir"@ {
            Some(CompileOutput::Mir)
        } else {
            None
        }
    }

    /// What the error says of a text that names no kind.
    pub open spec fn parse_failure(text: Seq<char>) -> Seq<char> {
        "unknown output format "@ + text
    }

    /// The compiler options that ask for the kind.
    pub fn as_opts(&self) -> (opts: &'static [&'static str])
        ensures
            opts.deep_view() == self.options(),
    {
        match *self {
            CompileOutput::Asm => &["--emit=asm"],
            CompileOutput::Llvm => &["--emit=llvm-ir"],
            CompileOutput::Mir => &["-Zunstable-options", "--unpretty=mir"],
        }
    }

    /// Two kinds with one name or the same options are the same kind.
    pub proof fn lemma_kinds_distinct(a: CompileOutput, b: CompileOutput)
        ensures
            a.name() == b.name() ==> a == b,
            a.options() == b.options() ==> a == b,
    {
        reveal_strlit("asm");
        reveal_strlit("llvm-ir");
        reveal_strlit("mir");
        reveal_strlit("--emit=asm");
        reveal_strlit("--emit=llvm-ir");
        reveal_strlit("-Zunstable-options");
        reveal_strlit("--unpretty=mir");
        assert("asm"@[0] == 'a' && "mir"@[0] == 'm' && "llvm-ir"@.len() == 7 && "asm"@.len() == 3);
        if a.options() == b.options() {
            assert(a.options()[0].len() == b.options()[0].len());
        }
    }

    /// A text parses to a kind exactly when it is that kind's name.
    pub proof fn lemma_parse_inverts_name(text: Seq<char>, kind: CompileOutput)
        ensures
            Self::parse(text) == Some(kind) <==> text == kind.name(),
    {
        Self::lemma_kinds_distinct(CompileOutput::Asm, CompileOutput::Llvm);
        Self::lemma_kinds_distinct(CompileOutput::Asm, CompileOutput::Mir);
        Self::lemma_kinds_distinct(CompileOutput::Llvm, CompileOutput::Mir);
    }
}

impl FromStr for CompileOutput {
    type Err = StringError;

    fn from_str(s: &str) -> (parsed: Result<Self, Self::Err>)
        ensures
            match parsed {
                Ok(kind) => Self::parse(s@) == Some(kind),
                Err(error) => Self::parse(s@) is None && error@ == Self::parse_failure(s@),
            },
    {
        if str_eq(s, "asm") {
            Ok(CompileOutput::Asm)
        } else if str_eq(s, "llvm-ir") {
            Ok(CompileOutput::Llvm)
        } else if str_eq(s, "mir") {
            Ok(CompileOutput::Mir)
        } else {
            Err(StringError(join("unknown output format ", s)))
        }
    }
}

} // verus!
