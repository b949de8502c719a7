//! The sections of a configuration document as they are written, before tiers are merged.
//!
//! A field that is absent, or `null`, is `None`.

use vstd::prelude::*;

use crate::config::SemanticBackend;
use crate::json::{Json, JsonView};
use crate::text;
use crate::text_map::TextMap;

verus! {

/// How far an edited file is validated.
#[derive(Debug, Clone, Copy, PartialEq, Eq, Structural)]
pub enum RawValidateOnEdit {
    Syntax,
    Full,
}

impl DeepView for RawValidateOnEdit {
    type V = RawValidateOnEdit;

    open spec fn deep_view(&self) -> RawValidateOnEdit {
        *self
    }
}

impl RawValidateOnEdit {
    /// The name under which a configuration writes the value.
    pub open spec fn name(self) -> Seq<char> {
        match self {
            RawValidateOnEdit::Syntax => "syntax"@,
            RawValidateOnEdit::Full => "full"@,
        }
    }

    /// The value that a name stands for.
    pub open spec fn named(name: Seq<char>) -> Option<RawValidateOnEdit> {
        if name == "syntax"@ {
            Some(RawValidateOnEdit::Syntax)
        } else if name == "full"@ {
            Some(RawValidateOnEdit::Full)
        } else {
            None
        }
    }

    /// The name of the value.
    pub fn as_str(self) -> (out: &'static str)
        ensures
            out@ == self.name(),
    {
        match self {
            RawValidateOnEdit::Syntax => "syntax",
            RawValidateOnEdit::Full => "full",
        }
    }

    /// The value with the given name, if there is one.
    pub fn from_name(name: &str) -> (out: Option<RawValidateOnEdit>)
        ensures
            out == RawValidateOnEdit::named(name@),
    {
        if text::same_text(name, "syntax") {
            Some(RawValidateOnEdit::Syntax)
        } else if text::same_text(name, "full") {
            Some(RawValidateOnEdit::Full)
        } else {
            None
        }
    }

    /// A value is found again under its own name, and only names of values are found.
    pub proof fn law_names_round_trip(self, name: Seq<char>)
        ensures
            RawValidateOnEdit::named(self.name()) == Some(self),
            RawValidateOnEdit::named(name) is Some ==> RawValidateOnEdit::named(name)->0.name() == name,
    {
        reveal_strlit("syntax");
        reveal_strlit("full");
        assert("syntax"@.len() != "full"@.len());
    }
}

/// A formatter.
#[derive(Debug, Clone, Copy, PartialEq, Eq, Structural)]
pub enum RawFormatter {
    Biome,
    Oxfmt,
    Prettier,
    Deno,
    Ruff,
    Black,
    Rustfmt,
    Goimports,
    Gofmt,
    NoTool,
}

impl DeepView for RawFormatter {
    type V = RawFormatter;

    open spec fn deep_view(&self) -> RawFormatter {
        *self
    }
}

impl RawFormatter {
    /// The name under which a configuration writes the value.
    pub open spec fn name(self) -> Seq<char> {
        match self {
            RawFormatter::Biome => "biome"@,
            RawFormatter::Oxfmt => "oxfmt"@,
            RawFormatter::Prettier => "prettier"@,
            RawFormatter::Deno => "deno"@,
            RawFormatter::Ruff => "ruff"@,
            RawFormatter::Black => "black"@,
            RawFormatter::Rustfmt => "rustfmt"@,
            RawFormatter::Goimports => "goimports"@,
            RawFormatter::Gofmt => "gofmt"@,
            RawFormatter::NoTool => "none"@,
        }
    }

    /// The value that a name stands for.
    pub open spec fn named(name: Seq<char>) -> Option<RawFormatter> {
        if name == "biome"@ {
            Some(RawFormatter::Biome)
        } else if name == "oxfmt"@ {
            Some(RawFormatter::Oxfmt)
        } else if name == "prettier"@ {
            Some(RawFormatter::Prettier)
        } else if name == "deno"@ {
            Some(RawFormatter::Deno)
        } else if name == "ruff"@ {
            Some(RawFormatter::Ruff)
        } else if name == "black"@ {
            Some(RawFormatter::Black)
        } else if name == "rustfmt"@ {
            Some(RawFormatter::Rustfmt)
        } else if name == "goimports"@ {
            Some(RawFormatter::Goimports)
        } else if name == "gofmt"@ {
            Some(RawFormatter::Gofmt)
        } else if name == "none"@ {
            Some(RawFormatter::NoTool)
        } else {
            None
        }
    }

    /// The name of the value.
    pub fn as_str(self) -> (out: &'static str)
        ensures
            out@ == self.name(),
    {
        match self {
            RawFormatter::Biome => "biome",
            RawFormatter::Oxfmt => "oxfmt",
            RawFormatter::Prettier => "prettier",
            RawFormatter::Deno => "deno",
            RawFormatter::Ruff => "ruff",
            RawFormatter::Black => "black",
            RawFormatter::Rustfmt => "rustfmt",
            RawFormatter::Goimports => "goimports",
            RawFormatter::Gofmt => "gofmt",
            RawFormatter::NoTool => "none",
        }
    }

    /// The value with the given name, if there is one.
    pub fn from_name(name: &str) -> (out: Option<RawFormatter>)
        ensures
            out == RawFormatter::named(name@),
    {
        if text::same_text(name, "biome") {
            Some(RawFormatter::Biome)
        } else if text::same_text(name, "oxfmt") {
            Some(RawFormatter::Oxfmt)
        } else if text::same_text(name, "prettier") {
            Some(RawFormatter::Prettier)
        } else if text::same_text(name, "deno") {
            Some(RawFormatter::Deno)
        } else if text::same_text(name, "ruff") {
            Some(RawFormatter::Ruff)
        } else if text::same_text(name, "black") {
            Some(RawFormatter::Black)
        } else if text::same_text(name, "rustfmt") {
            Some(RawFormatter::Rustfmt)
        } else if text::same_text(name, "goimports") {
            Some(RawFormatter::Goimports)
        } else if text::same_text(name, "gofmt") {
            Some(RawFormatter::Gofmt)
        } else if text::same_text(name, "none") {
            Some(RawFormatter::NoTool)
        } else {
            None
        }
    }

    /// A value is found again under its own name, and only names of values are found.
    pub proof fn law_names_round_trip(self, name: Seq<char>)
        ensures
            RawFormatter::named(self.name()) == Some(self),
            RawFormatter::named(name) is Some ==> RawFormatter::named(name)->0.name() == name,
    {
        reveal_strlit("biome");
        reveal_strlit("oxfmt");
        reveal_strlit("prettier");
        reveal_strlit("deno");
        reveal_strlit("ruff");
        reveal_strlit("black");
        reveal_strlit("rustfmt");
        reveal_strlit("goimports");
        reveal_strlit("gofmt");
        reveal_strlit("none");
        assert("biome"@[0] != "oxfmt"@[0]);
        assert("biome"@.len() != "prettier"@.len());
        assert("biome"@.len() != "deno"@.len());
        assert("biome"@.len() != "ruff"@.len());
        assert("biome"@[1] != "black"@[1]);
        assert("biome"@.len() != "rustfmt"@.len());
        assert("biome"@.len() != "goimports"@.len());
        assert("biome"@[0] != "gofmt"@[0]);
        assert("biome"@.len() != "none"@.len());
        assert("oxfmt"@.len() != "prettier"@.len());
        assert("oxfmt"@.len() != "deno"@.len());
        assert("oxfmt"@.len() != "ruff"@.len());
        assert("oxfmt"@[0] != "black"@[0]);
        assert("oxfmt"@.len() != "rustfmt"@.len());
        assert("oxfmt"@.len() != "goimports"@.len());
        assert("oxfmt"@[0] != "gofmt"@[0]);
        assert("oxfmt"@.len() != "none"@.len());
        assert("prettier"@.len() != "deno"@.len());
        assert("prettier"@.len() != "ruff"@.len());
        assert("prettier"@.len() != "black"@.len());
        assert("prettier"@.len() != "rustfmt"@.len());
        assert("prettier"@.len() != "goimports"@.len());
        assert("prettier"@.len() != "gofmt"@.len());
        assert("prettier"@.len() != "none"@.len());
        assert("deno"@[0] != "ruff"@[0]);
        assert("deno"@.len() != "black"@.len());
        assert("deno"@.len() != "rustfmt"@.len());
        assert("deno"@.len() != "goimports"@.len());
        assert("deno"@.len() != "gofmt"@.len());
        assert("deno"@[0] != "none"@[0]);
        assert("ruff"@.len() != "black"@.len());
        assert("ruff"@.len() != "rustfmt"@.len());
        assert("ruff"@.len() != "goimports"@.len());
        assert("ruff"@.len() != "gofmt"@.len());
        assert("ruff"@[0] != "none"@[0]);
        assert("black"@.len() != "rustfmt"@.len());
        assert("black"@.len() != "goimports"@.len());
        assert("black"@[0] != "gofmt"@[0]);
        assert("black"@.len() != "none"@.len());
        assert("rustfmt"@.len() != "goimports"@.len());
        assert("rustfmt"@.len() != "gofmt"@.len());
        assert("rustfmt"@.len() != "none"@.len());
        assert("goimports"@.len() != "gofmt"@.len());
        assert("goimports"@.len() != "none"@.len());
        assert("gofmt"@.len() != "none"@.len());
    }
}

/// A type checker.
#[derive(Debug, Clone, Copy, PartialEq, Eq, Structural)]
pub enum RawChecker {
    Tsc,
    Tsgo,
    Biome,
    Pyright,
    Ruff,
    Cargo,
    Go,
    Staticcheck,
    NoTool,
}

impl DeepView for RawChecker {
    type V = RawChecker;

    open spec fn deep_view(&self) -> RawChecker {
        *self
    }
}

impl RawChecker {
    /// The name under which a configuration writes the value.
    pub open spec fn name(self) -> Seq<char> {
        match self {
            RawChecker::Tsc => "tsc"@,
            RawChecker::Tsgo => "tsgo"@,
            RawChecker::Biome => "biome"@,
            RawChecker::Pyright => "pyright"@,
            RawChecker::Ruff => "ruff"@,
            RawChecker::Cargo => "cargo"@,
            RawChecker::Go => "go"@,
            RawChecker::Staticcheck => "staticcheck"@,
            RawChecker::NoTool => "none"@,
        }
    }

    /// The value that a name stands for.
    pub open spec fn named(name: Seq<char>) -> Option<RawChecker> {
        if name == "tsc"@ {
            Some(RawChecker::Tsc)
        } else if name == "tsgo"@ {
            Some(RawChecker::Tsgo)
        } else if name == "biome"@ {
            Some(RawChecker::Biome)
        } else if name == "pyright"@ {
            Some(RawChecker::Pyright)
        } else if name == "ruff"@ {
            Some(RawChecker::Ruff)
        } else if name == "cargo"@ {
            Some(RawChecker::Cargo)
        } else if name == "go"@ {
            Some(RawChecker::Go)
        } else if name == "staticcheck"@ {
            Some(RawChecker::Staticcheck)
        } else if name == "none"@ {
            Some(RawChecker::NoTool)
        } else {
            None
        }
    }

    /// The name of the value.
    pub fn as_str(self) -> (out: &'static str)
        ensures
            out@ == self.name(),
    {
        match self {
            RawChecker::Tsc => "tsc",
            RawChecker::Tsgo => "tsgo",
            RawChecker::Biome => "biome",
            RawChecker::Pyright => "pyright",
            RawChecker::Ruff => "ruff",
            RawChecker::Cargo => "cargo",
            RawChecker::Go => "go",
            RawChecker::Staticcheck => "staticcheck",
            RawChecker::NoTool => "none",
        }
    }

    /// The value with the given name, if there is one.
    pub fn from_name(name: &str) -> (out: Option<RawChecker>)
        ensures
            out == RawChecker::named(name@),
    {
        if text::same_text(name, "tsc") {
            Some(RawChecker::Tsc)
        } else if text::same_text(name, "tsgo") {
            Some(RawChecker::Tsgo)
        } else if text::same_text(name, "biome") {
            Some(RawChecker::Biome)
        } else if text::same_text(name, "pyright") {
            Some(RawChecker::Pyright)
        } else if text::same_text(name, "ruff") {
            Some(RawChecker::Ruff)
        } else if text::same_text(name, "cargo") {
            Some(RawChecker::Cargo)
        } else if text::same_text(name, "go") {
            Some(RawChecker::Go)
        } else if text::same_text(name, "staticcheck") {
            Some(RawChecker::Staticcheck)
        } else if text::same_text(name, "none") {
            Some(RawChecker::NoTool)
        } else {
            None
        }
    }

    /// A value is found again under its own name, and only names of values are found.
    pub proof fn law_names_round_trip(self, name: Seq<char>)
        ensures
            RawChecker::named(self.name()) == Some(self),
            RawChecker::named(name) is Some ==> RawChecker::named(name)->0.name() == name,
    {
        reveal_strlit("tsc");
        reveal_strlit("tsgo");
        reveal_strlit("biome");
        reveal_strlit("pyright");
        reveal_strlit("ruff");
        reveal_strlit("cargo");
        reveal_strlit("go");
        reveal_strlit("staticcheck");
        reveal_strlit("none");
        assert("tsc"@.len() != "tsgo"@.len());
        assert("tsc"@.len() != "biome"@.len());
        assert("tsc"@.len() != "pyright"@.len());
        assert("tsc"@.len() != "ruff"@.len());
        assert("tsc"@.len() != "cargo"@.len());
        assert("tsc"@.len() != "go"@.len());
        assert("tsc"@.len() != "staticcheck"@.len());
        assert("tsc"@.len() != "none"@.len());
        assert("tsgo"@.len() != "biome"@.len());
        assert("tsgo"@.len() != "pyright"@.len());
        assert("tsgo"@[0] != "ruff"@[0]);
        assert("tsgo"@.len() != "cargo"@.len());
        assert("tsgo"@.len() != "go"@.len());
        assert("tsgo"@.len() != "staticcheck"@.len());
        assert("tsgo"@[0] != "none"@[0]);
        assert("biome"@.len() != "pyright"@.len());
        assert("biome"@.len() != "ruff"@.len());
        assert("biome"@[0] != "cargo"@[0]);
        assert("biome"@.len() != "go"@.len());
        assert("biome"@.len() != "staticcheck"@.len());
        assert("biome"@.len() != "none"@.len());
        assert("pyright"@.len() != "ruff"@.len());
        assert("pyright"@.len() != "cargo"@.len());
        assert("pyright"@.len() != "go"@.len());
        assert("pyright"@.len() != "staticcheck"@.len());
        assert("pyright"@.len() != "none"@.len());
        assert("ruff"@.len() != "cargo"@.len());
        assert("ruff"@.len() != "go"@.len());
        assert("ruff"@.len() != "staticcheck"@.len());
        assert("ruff"@[0] != "none"@[0]);
        assert("cargo"@.len() != "go"@.len());
        assert("cargo"@.len() != "staticcheck"@.len());
        assert("cargo"@.len() != "none"@.len());
        assert("go"@.len() != "staticcheck"@.len());
        assert("go"@.len() != "none"@.len());
        assert("staticcheck"@.len() != "none"@.len());
    }
}

/// Where configuration warnings are shown.
#[derive(Debug, Clone, Copy, PartialEq, Eq, Structural)]
pub enum RawConfigureWarningsDelivery {
    Toast,
    Log,
    Chat,
}

impl DeepView for RawConfigureWarningsDelivery {
    type V = RawConfigureWarningsDelivery;

    open spec fn deep_view(&self) -> RawConfigureWarningsDelivery {
        *self
    }
}

impl RawConfigureWarningsDelivery {
    /// The name under which a configuration writes the value.
    pub open spec fn name(self) -> Seq<char> {
        match self {
            RawConfigureWarningsDelivery::Toast => "toast"@,
            RawConfigureWarningsDelivery::Log => "log"@,
            RawConfigureWarningsDelivery::Chat => "chat"@,
        }
    }

    /// The value that a name stands for.
    pub open spec fn named(name: Seq<char>) -> Option<RawConfigureWarningsDelivery> {
        if name == "toast"@ {
            Some(RawConfigureWarningsDelivery::Toast)
        } else if name == "log"@ {
            Some(RawConfigureWarningsDelivery::Log)
        } else if name == "chat"@ {
            Some(RawConfigureWarningsDelivery::Chat)
        } else {
            None
        }
    }

    /// The name of the value.
    pub fn as_str(self) -> (out: &'static str)
        ensures
            out@ == self.name(),
    {
        match self {
            RawConfigureWarningsDelivery::Toast => "toast",
            RawConfigureWarningsDelivery::Log => "log",
            RawConfigureWarningsDelivery::Chat => "chat",
        }
    }

    /// The value with the given name, if there is one.
    pub fn from_name(name: &str) -> (out: Option<RawConfigureWarningsDelivery>)
        ensures
            out == RawConfigureWarningsDelivery::named(name@),
    {
        if text::same_text(name, "toast") {
            Some(RawConfigureWarningsDelivery::Toast)
        } else if text::same_text(name, "log") {
            Some(RawConfigureWarningsDelivery::Log)
        } else if text::same_text(name, "chat") {
            Some(RawConfigureWarningsDelivery::Chat)
        } else {
            None
        }
    }

    /// A value is found again under its own name, and only names of values are found.
    pub proof fn law_names_round_trip(self, name: Seq<char>)
        ensures
            RawConfigureWarningsDelivery::named(self.name()) == Some(self),
            RawConfigureWarningsDelivery::named(name) is Some ==> RawConfigureWarningsDelivery::named(name)->0.name() == name,
    {
        reveal_strlit("toast");
        reveal_strlit("log");
        reveal_strlit("chat");
        assert("toast"@.len() != "log"@.len());
        assert("toast"@.len() != "chat"@.len());
        assert("log"@.len() != "chat"@.len());
    }
}

/// Which tools are registered.
#[derive(Debug, Clone, Copy, PartialEq, Eq, Structural)]
pub enum RawToolSurface {
    Minimal,
    Recommended,
    All,
}

impl DeepView for RawToolSurface {
    type V = RawToolSurface;

    open spec fn deep_view(&self) -> RawToolSurface {
        *self
    }
}

impl RawToolSurface {
    /// The name under which a configuration writes the value.
    pub open spec fn name(self) -> Seq<char> {
        match self {
            RawToolSurface::Minimal => "minimal"@,
            RawToolSurface::Recommended => "recommended"@,
            RawToolSurface::All => "all"@,
        }
    }

    /// The value that a name stands for.
    pub open spec fn named(name: Seq<char>) -> Option<RawToolSurface> {
        if name == "minimal"@ {
            Some(RawToolSurface::Minimal)
        } else if name == "recommended"@ {
            Some(RawToolSurface::Recommended)
        } else if name == "all"@ {
            Some(RawToolSurface::All)
        } else {
            None
        }
    }

    /// The name of the value.
    pub fn as_str(self) -> (out: &'static str)
        ensures
            out@ == self.name(),
    {
        match self {
            RawToolSurface::Minimal => "minimal",
            RawToolSurface::Recommended => "recommended",
            RawToolSurface::All => "all",
        }
    }

    /// The value with the given name, if there is one.
    pub fn from_name(name: &str) -> (out: Option<RawToolSurface>)
        ensures
            out == RawToolSurface::named(name@),
    {
        if text::same_text(name, "minimal") {
            Some(RawToolSurface::Minimal)
        } else if text::same_text(name, "recommended") {
            Some(RawToolSurface::Recommended)
        } else if text::same_text(name, "all") {
            Some(RawToolSurface::All)
        } else {
            None
        }
    }

    /// A value is found again under its own name, and only names of values are found.
    pub proof fn law_names_round_trip(self, name: Seq<char>)
        ensures
            RawToolSurface::named(self.name()) == Some(self),
            RawToolSurface::named(name) is Some ==> RawToolSurface::named(name)->0.name() == name,
    {
        reveal_strlit("minimal");
        reveal_strlit("recommended");
        reveal_strlit("all");
        assert("minimal"@.len() != "recommended"@.len());
        assert("minimal"@.len() != "all"@.len());
        assert("recommended"@.len() != "all"@.len());
    }
}

/// Which Python language server is used.
#[derive(Debug, Clone, Copy, PartialEq, Eq, Structural)]
pub enum RawPythonLsp {
    Pyright,
    Ty,
    Auto,
}

impl DeepView for RawPythonLsp {
    type V = RawPythonLsp;

    open spec fn deep_view(&self) -> RawPythonLsp {
        *self
    }
}

impl RawPythonLsp {
    /// The name under which a configuration writes the value.
    pub open spec fn name(self) -> Seq<char> {
        match self {
            RawPythonLsp::Pyright => "pyright"@,
            RawPythonLsp::Ty => "ty"@,
            RawPythonLsp::Auto => "auto"@,
        }
    }

    /// The value that a name stands for.
    pub open spec fn named(name: Seq<char>) -> Option<RawPythonLsp> {
        if name == "pyright"@ {
            Some(RawPythonLsp::Pyright)
        } else if name == "ty"@ {
            Some(RawPythonLsp::Ty)
        } else if name == "auto"@ {
            Some(RawPythonLsp::Auto)
        } else {
            None
        }
    }

    /// The name of the value.
    pub fn as_str(self) -> (out: &'static str)
        ensures
            out@ == self.name(),
    {
        match self {
            RawPythonLsp::Pyright => "pyright",
            RawPythonLsp::Ty => "ty",
            RawPythonLsp::Auto => "auto",
        }
    }

    /// The value with the given name, if there is one.
    pub fn from_name(name: &str) -> (out: Option<RawPythonLsp>)
        ensures
            out == RawPythonLsp::named(name@),
    {
        if text::same_text(name, "pyright") {
            Some(RawPythonLsp::Pyright)
        } else if text::same_text(name, "ty") {
            Some(RawPythonLsp::Ty)
        } else if text::same_text(name, "auto") {
            Some(RawPythonLsp::Auto)
        } else {
            None
        }
    }

    /// A value is found again under its own name, and only names of values are found.
    pub proof fn law_names_round_trip(self, name: Seq<char>)
        ensures
            RawPythonLsp::named(self.name()) == Some(self),
            RawPythonLsp::named(name) is Some ==> RawPythonLsp::named(name)->0.name() == name,
    {
        reveal_strlit("pyright");
        reveal_strlit("ty");
        reveal_strlit("auto");
        assert("pyright"@.len() != "ty"@.len());
        assert("pyright"@.len() != "auto"@.len());
        assert("ty"@.len() != "auto"@.len());
    }
}

/// Which edit surface is used.
#[derive(Debug, PartialEq, Eq)]
pub enum RawEditMode {
    Default,
    Hashline,
    Unknown(String),
}

/// The model of [`RawEditMode`].
pub enum RawEditModeView {
    Default,
    Hashline,
    Unknown(Seq<char>),
}

impl DeepView for RawEditMode {
    type V = RawEditModeView;

    open spec fn deep_view(&self) -> RawEditModeView {
        match self {
            RawEditMode::Default => RawEditModeView::Default,
            RawEditMode::Hashline => RawEditModeView::Hashline,
            RawEditMode::Unknown(value) => RawEditModeView::Unknown(value@),
        }
    }
}

/// Process memory section. Unknown keys are refused.
#[derive(Debug, Clone, Copy, PartialEq, Eq)]
pub struct RawMemory {
    pub limit_bytes: Option<u64>,
}

impl DeepView for RawMemory {
    type V = RawMemory;

    open spec fn deep_view(&self) -> RawMemory {
        *self
    }
}

/// A section in which nothing is set.
pub open spec fn unset_memory() -> RawMemory {
    RawMemory {
        limit_bytes: None,
    }
}

impl Default for RawMemory {
    fn default() -> (out: Self)
        ensures
            out.deep_view() == unset_memory(),
    {
        RawMemory {
            limit_bytes: None,
        }
    }
}

/// Semantic search section.
#[derive(Debug, PartialEq, Eq)]
pub struct RawSemantic {
    pub backend: Option<SemanticBackend>,
    pub model: Option<String>,
    pub base_url: Option<String>,
    pub api_key_env: Option<String>,
    pub timeout_ms: Option<u64>,
    pub query_timeout_ms: Option<u64>,
    pub max_batch_size: Option<usize>,
    pub max_files: Option<usize>,
}

/// The model of [`RawSemantic`].
pub struct RawSemanticView {
    pub backend: Option<SemanticBackend>,
    pub model: Option<Seq<char>>,
    pub base_url: Option<Seq<char>>,
    pub api_key_env: Option<Seq<char>>,
    pub timeout_ms: Option<u64>,
    pub query_timeout_ms: Option<u64>,
    pub max_batch_size: Option<usize>,
    pub max_files: Option<usize>,
}

impl DeepView for RawSemantic {
    type V = RawSemanticView;

    open spec fn deep_view(&self) -> RawSemanticView {
        RawSemanticView {
            backend: self.backend.deep_view(),
            model: self.model.deep_view(),
            base_url: self.base_url.deep_view(),
            api_key_env: self.api_key_env.deep_view(),
            timeout_ms: self.timeout_ms.deep_view(),
            query_timeout_ms: self.query_timeout_ms.deep_view(),
            max_batch_size: self.max_batch_size.deep_view(),
            max_files: self.max_files.deep_view(),
        }
    }
}

/// A section in which nothing is set.
pub open spec fn unset_semantic() -> RawSemanticView {
    RawSemanticView {
        backend: None,
        model: None,
        base_url: None,
        api_key_env: None,
        timeout_ms: None,
        query_timeout_ms: None,
        max_batch_size: None,
        max_files: None,
    }
}

impl Default for RawSemantic {
    fn default() -> (out: Self)
        ensures
            out.deep_view() == unset_semantic(),
    {
        RawSemantic {
            backend: None,
            model: None,
            base_url: None,
            api_key_env: None,
            timeout_ms: None,
            query_timeout_ms: None,
            max_batch_size: None,
            max_files: None,
        }
    }
}

impl RawSemantic {
    /// Whether no field is set.
    pub fn is_empty(&self) -> (yes: bool)
        ensures
            yes == empty_semantic(self.deep_view()),
    {
        self.backend.is_none()
            && self.model.is_none()
            && self.base_url.is_none()
            && self.api_key_env.is_none()
            && self.timeout_ms.is_none()
            && self.query_timeout_ms.is_none()
            && self.max_batch_size.is_none()
            && self.max_files.is_none()
    }
}

/// Whether no field is set.
pub open spec fn empty_semantic(section: RawSemanticView) -> bool {
    &&& section.backend is None
    &&& section.model is None
    &&& section.base_url is None
    &&& section.api_key_env is None
    &&& section.timeout_ms is None
    &&& section.query_timeout_ms is None
    &&& section.max_batch_size is None
    &&& section.max_files is None
}

/// One user-defined LSP server.
#[derive(Debug, PartialEq, Eq)]
pub struct RawLspServerEntry {
    pub extensions: Option<Vec<String>>,
    pub binary: Option<String>,
    pub args: Option<Vec<String>>,
    pub root_markers: Option<Vec<String>>,
    pub disabled: Option<bool>,
    pub env: Option<TextMap<String>>,
    pub initialization_options: Option<Json>,
}

/// The model of [`RawLspServerEntry`].
pub struct RawLspServerEntryView {
    pub extensions: Option<Seq<Seq<char>>>,
    pub binary: Option<Seq<char>>,
    pub args: Option<Seq<Seq<char>>>,
    pub root_markers: Option<Seq<Seq<char>>>,
    pub disabled: Option<bool>,
    pub env: Option<Seq<(Seq<char>, Seq<char>)>>,
    pub initialization_options: Option<JsonView>,
}

impl DeepView for RawLspServerEntry {
    type V = RawLspServerEntryView;

    open spec fn deep_view(&self) -> RawLspServerEntryView {
        RawLspServerEntryView {
            extensions: self.extensions.deep_view(),
            binary: self.binary.deep_view(),
            args: self.args.deep_view(),
            root_markers: self.root_markers.deep_view(),
            disabled: self.disabled.deep_view(),
            env: self.env.deep_view(),
            initialization_options: self.initialization_options.deep_view(),
        }
    }
}

/// A section in which nothing is set.
pub open spec fn unset_lsp_server_entry() -> RawLspServerEntryView {
    RawLspServerEntryView {
        extensions: None,
        binary: None,
        args: None,
        root_markers: None,
        disabled: None,
        env: None,
        initialization_options: None,
    }
}

impl Default for RawLspServerEntry {
    fn default() -> (out: Self)
        ensures
            out.deep_view() == unset_lsp_server_entry(),
    {
        RawLspServerEntry {
            extensions: None,
            binary: None,
            args: None,
            root_markers: None,
            disabled: None,
            env: None,
            initialization_options: None,
        }
    }
}

/// Language server section.
#[derive(Debug, PartialEq, Eq)]
pub struct RawLsp {
    pub servers: Option<TextMap<RawLspServerEntry>>,
    pub disabled: Option<Vec<String>>,
    pub python: Option<RawPythonLsp>,
    pub diagnostics_on_edit: Option<bool>,
    pub auto_install: Option<bool>,
    pub grace_days: Option<u64>,
    pub versions: Option<TextMap<String>>,
}

/// The model of [`RawLsp`].
pub struct RawLspView {
    pub servers: Option<Seq<(Seq<char>, RawLspServerEntryView)>>,
    pub disabled: Option<Seq<Seq<char>>>,
    pub python: Option<RawPythonLsp>,
    pub diagnostics_on_edit: Option<bool>,
    pub auto_install: Option<bool>,
    pub grace_days: Option<u64>,
    pub versions: Option<Seq<(Seq<char>, Seq<char>)>>,
}

impl DeepView for RawLsp {
    type V = RawLspView;

    open spec fn deep_view(&self) -> RawLspView {
        RawLspView {
            servers: self.servers.deep_view(),
            disabled: self.disabled.deep_view(),
            python: self.python.deep_view(),
            diagnostics_on_edit: self.diagnostics_on_edit.deep_view(),
            auto_install: self.auto_install.deep_view(),
            grace_days: self.grace_days.deep_view(),
            versions: self.versions.deep_view(),
        }
    }
}

/// A section in which nothing is set.
pub open spec fn unset_lsp() -> RawLspView {
    RawLspView {
        servers: None,
        disabled: None,
        python: None,
        diagnostics_on_edit: None,
        auto_install: None,
        grace_days: None,
        versions: None,
    }
}

impl Default for RawLsp {
    fn default() -> (out: Self)
        ensures
            out.deep_view() == unset_lsp(),
    {
        RawLsp {
            servers: None,
            disabled: None,
            python: None,
            diagnostics_on_edit: None,
            auto_install: None,
            grace_days: None,
            versions: None,
        }
    }
}

impl RawLsp {
    /// Whether no field is set.
    pub fn is_empty(&self) -> (yes: bool)
        ensures
            yes == empty_lsp(self.deep_view()),
    {
        self.servers.is_none()
            && self.disabled.is_none()
            && self.python.is_none()
            && self.diagnostics_on_edit.is_none()
            && self.auto_install.is_none()
            && self.grace_days.is_none()
            && self.versions.is_none()
    }
}

/// Whether no field is set.
pub open spec fn empty_lsp(section: RawLspView) -> bool {
    &&& section.servers is None
    &&& section.disabled is None
    &&& section.python is None
    &&& section.diagnostics_on_edit is None
    &&& section.auto_install is None
    &&& section.grace_days is None
    &&& section.versions is None
}

/// The object form of the bash section.
#[derive(Debug, Clone, Copy, PartialEq, Eq)]
pub struct RawBashFeatures {
    pub rewrite: Option<bool>,
    pub compress: Option<bool>,
    pub background: Option<bool>,
    pub host_fallback: Option<bool>,
    pub subagent_background: Option<bool>,
    pub detach_on_user_message: Option<bool>,
    pub long_running_reminder_enabled: Option<bool>,
    pub long_running_reminder_interval_ms: Option<u64>,
    pub foreground_wait_window_ms: Option<u64>,
    pub powershell_tool: Option<bool>,
}

impl DeepView for RawBashFeatures {
    type V = RawBashFeatures;

    open spec fn deep_view(&self) -> RawBashFeatures {
        *self
    }
}

/// The bash section: a switch, or an object of features.
#[derive(Debug, Clone, Copy, PartialEq, Eq)]
pub enum RawBash {
    Bool(bool),
    Features(RawBashFeatures),
}

impl DeepView for RawBash {
    type V = RawBash;

    open spec fn deep_view(&self) -> RawBash {
        *self
    }
}

/// A section in which nothing is set.
pub open spec fn unset_bash_features() -> RawBashFeatures {
    RawBashFeatures {
        rewrite: None,
        compress: None,
        background: None,
        host_fallback: None,
        subagent_background: None,
        detach_on_user_message: None,
        long_running_reminder_enabled: None,
        long_running_reminder_interval_ms: None,
        foreground_wait_window_ms: None,
        powershell_tool: None,
    }
}

impl Default for RawBashFeatures {
    fn default() -> (out: Self)
        ensures
            out.deep_view() == unset_bash_features(),
    {
        RawBashFeatures {
            rewrite: None,
            compress: None,
            background: None,
            host_fallback: None,
            subagent_background: None,
            detach_on_user_message: None,
            long_running_reminder_enabled: None,
            long_running_reminder_interval_ms: None,
            foreground_wait_window_ms: None,
            powershell_tool: None,
        }
    }
}

/// Legacy bash feature flags.
#[derive(Debug, Clone, Copy, PartialEq, Eq)]
pub struct RawExperimentalBash {
    pub rewrite: Option<bool>,
    pub compress: Option<bool>,
    pub background: Option<bool>,
    pub long_running_reminder_enabled: Option<bool>,
    pub long_running_reminder_interval_ms: Option<u64>,
}

impl DeepView for RawExperimentalBash {
    type V = RawExperimentalBash;

    open spec fn deep_view(&self) -> RawExperimentalBash {
        *self
    }
}

/// A section in which nothing is set.
pub open spec fn unset_experimental_bash() -> RawExperimentalBash {
    RawExperimentalBash {
        rewrite: None,
        compress: None,
        background: None,
        long_running_reminder_enabled: None,
        long_running_reminder_interval_ms: None,
    }
}

impl Default for RawExperimentalBash {
    fn default() -> (out: Self)
        ensures
            out.deep_view() == unset_experimental_bash(),
    {
        RawExperimentalBash {
            rewrite: None,
            compress: None,
            background: None,
            long_running_reminder_enabled: None,
            long_running_reminder_interval_ms: None,
        }
    }
}

/// Legacy experimental section.
#[derive(Debug, Clone, Copy, PartialEq, Eq)]
pub struct RawExperimental {
    pub bash: Option<RawExperimentalBash>,
    pub lsp_ty: Option<bool>,
}

impl DeepView for RawExperimental {
    type V = RawExperimental;

    open spec fn deep_view(&self) -> RawExperimental {
        *self
    }
}

/// A section in which nothing is set.
pub open spec fn unset_experimental() -> RawExperimental {
    RawExperimental {
        bash: None,
        lsp_ty: None,
    }
}

impl Default for RawExperimental {
    fn default() -> (out: Self)
        ensures
            out.deep_view() == unset_experimental(),
    {
        RawExperimental {
            bash: None,
            lsp_ty: None,
        }
    }
}

impl RawExperimental {
    /// Whether no field is set.
    pub fn is_empty(&self) -> (yes: bool)
        ensures
            yes == empty_experimental(self.deep_view()),
    {
        self.bash.is_none()
            && self.lsp_ty.is_none()
    }
}

/// Whether no field is set.
pub open spec fn empty_experimental(section: RawExperimental) -> bool {
    &&& section.bash is None
    &&& section.lsp_ty is None
}

/// Duplicate detection section.
#[derive(Debug, PartialEq, Eq)]
pub struct RawInspectDuplicates {
    pub expected_mirrors: Option<Vec<(String, String)>>,
}

/// The model of [`RawInspectDuplicates`].
pub struct RawInspectDuplicatesView {
    pub expected_mirrors: Option<Seq<(Seq<char>, Seq<char>)>>,
}

impl DeepView for RawInspectDuplicates {
    type V = RawInspectDuplicatesView;

    open spec fn deep_view(&self) -> RawInspectDuplicatesView {
        RawInspectDuplicatesView {
            expected_mirrors: self.expected_mirrors.deep_view(),
        }
    }
}

/// A section in which nothing is set.
pub open spec fn unset_inspect_duplicates() -> RawInspectDuplicatesView {
    RawInspectDuplicatesView {
        expected_mirrors: None,
    }
}

impl Default for RawInspectDuplicates {
    fn default() -> (out: Self)
        ensures
            out.deep_view() == unset_inspect_duplicates(),
    {
        RawInspectDuplicates {
            expected_mirrors: None,
        }
    }
}

impl RawInspectDuplicates {
    /// Whether no field is set.
    pub fn is_empty(&self) -> (yes: bool)
        ensures
            yes == empty_inspect_duplicates(self.deep_view()),
    {
        self.expected_mirrors.is_none()
    }
}

/// Whether no field is set.
pub open spec fn empty_inspect_duplicates(section: RawInspectDuplicatesView) -> bool {
    &&& section.expected_mirrors is None
}

/// Inspection section.
#[derive(Debug, PartialEq, Eq)]
pub struct RawInspect {
    pub enabled: Option<bool>,
    pub diagnostics_timeout_ms: Option<u64>,
    /// A non-negative number, kept as it is written.
    pub tier2_idle_minutes: Option<Json>,
    pub categories: Option<TextMap<bool>>,
    pub tier2_soft_deadline_ms: Option<u64>,
    pub max_drill_down_items: Option<usize>,
    pub duplicates: Option<RawInspectDuplicates>,
}

/// The model of [`RawInspect`].
pub struct RawInspectView {
    pub enabled: Option<bool>,
    pub diagnostics_timeout_ms: Option<u64>,
    pub tier2_idle_minutes: Option<JsonView>,
    pub categories: Option<Seq<(Seq<char>, bool)>>,
    pub tier2_soft_deadline_ms: Option<u64>,
    pub max_drill_down_items: Option<usize>,
    pub duplicates: Option<RawInspectDuplicatesView>,
}

impl DeepView for RawInspect {
    type V = RawInspectView;

    open spec fn deep_view(&self) -> RawInspectView {
        RawInspectView {
            enabled: self.enabled.deep_view(),
            diagnostics_timeout_ms: self.diagnostics_timeout_ms.deep_view(),
            tier2_idle_minutes: self.tier2_idle_minutes.deep_view(),
            categories: self.categories.deep_view(),
            tier2_soft_deadline_ms: self.tier2_soft_deadline_ms.deep_view(),
            max_drill_down_items: self.max_drill_down_items.deep_view(),
            duplicates: self.duplicates.deep_view(),
        }
    }
}

/// A section in which nothing is set.
pub open spec fn unset_inspect() -> RawInspectView {
    RawInspectView {
        enabled: None,
        diagnostics_timeout_ms: None,
        tier2_idle_minutes: None,
        categories: None,
        tier2_soft_deadline_ms: None,
        max_drill_down_items: None,
        duplicates: None,
    }
}

impl Default for RawInspect {
    fn default() -> (out: Self)
        ensures
            out.deep_view() == unset_inspect(),
    {
        RawInspect {
            enabled: None,
            diagnostics_timeout_ms: None,
            tier2_idle_minutes: None,
            categories: None,
            tier2_soft_deadline_ms: None,
            max_drill_down_items: None,
            duplicates: None,
        }
    }
}

impl RawInspect {
    /// Whether no field is set.
    pub fn is_empty(&self) -> (yes: bool)
        ensures
            yes == empty_inspect(self.deep_view()),
    {
        self.enabled.is_none()
            && self.diagnostics_timeout_ms.is_none()
            && self.tier2_idle_minutes.is_none()
            && self.categories.is_none()
            && self.tier2_soft_deadline_ms.is_none()
            && self.max_drill_down_items.is_none()
            && self.duplicates.is_none()
    }
}

/// Whether no field is set.
pub open spec fn empty_inspect(section: RawInspectView) -> bool {
    &&& section.enabled is None
    &&& section.diagnostics_timeout_ms is None
    &&& section.tier2_idle_minutes is None
    &&& section.categories is None
    &&& section.tier2_soft_deadline_ms is None
    &&& section.max_drill_down_items is None
    &&& section.duplicates is None
}

/// Plugin bridge section.
#[derive(Debug, Clone, Copy, PartialEq, Eq)]
pub struct RawBridge {
    pub request_timeout_ms: Option<u64>,
    pub hang_threshold: Option<u64>,
}

impl DeepView for RawBridge {
    type V = RawBridge;

    open spec fn deep_view(&self) -> RawBridge {
        *self
    }
}

/// A section in which nothing is set.
pub open spec fn unset_bridge() -> RawBridge {
    RawBridge {
        request_timeout_ms: None,
        hang_threshold: None,
    }
}

impl Default for RawBridge {
    fn default() -> (out: Self)
        ensures
            out.deep_view() == unset_bridge(),
    {
        RawBridge {
            request_timeout_ms: None,
            hang_threshold: None,
        }
    }
}

/// Daemon section.
#[derive(Debug, PartialEq, Eq)]
pub struct RawSubc {
    pub connection_file: Option<String>,
    pub client_reaper: Option<bool>,
}

/// The model of [`RawSubc`].
pub struct RawSubcView {
    pub connection_file: Option<Seq<char>>,
    pub client_reaper: Option<bool>,
}

impl DeepView for RawSubc {
    type V = RawSubcView;

    open spec fn deep_view(&self) -> RawSubcView {
        RawSubcView {
            connection_file: self.connection_file.deep_view(),
            client_reaper: self.client_reaper.deep_view(),
        }
    }
}

/// A section in which nothing is set.
pub open spec fn unset_subc() -> RawSubcView {
    RawSubcView {
        connection_file: None,
        client_reaper: None,
    }
}

impl Default for RawSubc {
    fn default() -> (out: Self)
        ensures
            out.deep_view() == unset_subc(),
    {
        RawSubc {
            connection_file: None,
            client_reaper: None,
        }
    }
}

/// Linked-worktree section.
#[derive(Debug, Clone, Copy, PartialEq, Eq)]
pub struct RawWorktree {
    pub ram_overlay: Option<bool>,
}

impl DeepView for RawWorktree {
    type V = RawWorktree;

    open spec fn deep_view(&self) -> RawWorktree {
        *self
    }
}

/// A section in which nothing is set.
pub open spec fn unset_worktree() -> RawWorktree {
    RawWorktree {
        ram_overlay: None,
    }
}

impl Default for RawWorktree {
    fn default() -> (out: Self)
        ensures
            out.deep_view() == unset_worktree(),
    {
        RawWorktree {
            ram_overlay: None,
        }
    }
}

impl RawWorktree {
    /// Whether no field is set.
    pub fn is_empty(&self) -> (yes: bool)
        ensures
            yes == empty_worktree(self.deep_view()),
    {
        self.ram_overlay.is_none()
    }
}

/// Whether no field is set.
pub open spec fn empty_worktree(section: RawWorktree) -> bool {
    &&& section.ram_overlay is None
}

/// `gh` shim section.
#[derive(Debug, PartialEq, Eq)]
pub struct RawGhShim {
    pub enabled: Option<bool>,
    pub binary_path: Option<String>,
}

/// The model of [`RawGhShim`].
pub struct RawGhShimView {
    pub enabled: Option<bool>,
    pub binary_path: Option<Seq<char>>,
}

impl DeepView for RawGhShim {
    type V = RawGhShimView;

    open spec fn deep_view(&self) -> RawGhShimView {
        RawGhShimView {
            enabled: self.enabled.deep_view(),
            binary_path: self.binary_path.deep_view(),
        }
    }
}

/// A section in which nothing is set.
pub open spec fn unset_gh_shim() -> RawGhShimView {
    RawGhShimView {
        enabled: None,
        binary_path: None,
    }
}

impl Default for RawGhShim {
    fn default() -> (out: Self)
        ensures
            out.deep_view() == unset_gh_shim(),
    {
        RawGhShim {
            enabled: None,
            binary_path: None,
        }
    }
}

/// GitHub read section.
#[derive(Debug, Clone, Copy, PartialEq, Eq)]
pub struct RawGhRead {
    pub enabled: Option<bool>,
}

impl DeepView for RawGhRead {
    type V = RawGhRead;

    open spec fn deep_view(&self) -> RawGhRead {
        *self
    }
}

/// A section in which nothing is set.
pub open spec fn unset_gh_read() -> RawGhRead {
    RawGhRead {
        enabled: None,
    }
}

impl Default for RawGhRead {
    fn default() -> (out: Self)
        ensures
            out.deep_view() == unset_gh_read(),
    {
        RawGhRead {
            enabled: None,
        }
    }
}

/// Git section.
#[derive(Debug, PartialEq, Eq)]
pub struct RawGit {
    pub co_author: Option<String>,
}

/// The model of [`RawGit`].
pub struct RawGitView {
    pub co_author: Option<Seq<char>>,
}

impl DeepView for RawGit {
    type V = RawGitView;

    open spec fn deep_view(&self) -> RawGitView {
        RawGitView {
            co_author: self.co_author.deep_view(),
        }
    }
}

/// A section in which nothing is set.
pub open spec fn unset_git() -> RawGitView {
    RawGitView {
        co_author: None,
    }
}

impl Default for RawGit {
    fn default() -> (out: Self)
        ensures
            out.deep_view() == unset_git(),
    {
        RawGit {
            co_author: None,
        }
    }
}

/// Undo history section.
#[derive(Debug, Clone, Copy, PartialEq, Eq)]
pub struct RawBackup {
    pub enabled: Option<bool>,
    pub max_depth: Option<usize>,
    pub max_file_size: Option<u64>,
}

impl DeepView for RawBackup {
    type V = RawBackup;

    open spec fn deep_view(&self) -> RawBackup {
        *self
    }
}

/// A section in which nothing is set.
pub open spec fn unset_backup() -> RawBackup {
    RawBackup {
        enabled: None,
        max_depth: None,
        max_file_size: None,
    }
}

impl Default for RawBackup {
    fn default() -> (out: Self)
        ensures
            out.deep_view() == unset_backup(),
    {
        RawBackup {
            enabled: None,
            max_depth: None,
            max_file_size: None,
        }
    }
}

/// Sandbox section.
#[derive(Debug, PartialEq, Eq)]
pub struct RawSandbox {
    pub enabled: Option<bool>,
    pub write_allow: Option<Vec<String>>,
    pub read_deny: Option<Vec<String>>,
}

/// The model of [`RawSandbox`].
pub struct RawSandboxView {
    pub enabled: Option<bool>,
    pub write_allow: Option<Seq<Seq<char>>>,
    pub read_deny: Option<Seq<Seq<char>>>,
}

impl DeepView for RawSandbox {
    type V = RawSandboxView;

    open spec fn deep_view(&self) -> RawSandboxView {
        RawSandboxView {
            enabled: self.enabled.deep_view(),
            write_allow: self.write_allow.deep_view(),
            read_deny: self.read_deny.deep_view(),
        }
    }
}

/// A section in which nothing is set.
pub open spec fn unset_sandbox() -> RawSandboxView {
    RawSandboxView {
        enabled: None,
        write_allow: None,
        read_deny: None,
    }
}

impl Default for RawSandbox {
    fn default() -> (out: Self)
        ensures
            out.deep_view() == unset_sandbox(),
    {
        RawSandbox {
            enabled: None,
            write_allow: None,
            read_deny: None,
        }
    }
}

/// One standing root. Unknown fields are kept only long enough to warn about them.
#[derive(Debug, PartialEq, Eq)]
pub struct RawIndexRoot {
    pub path: Option<String>,
    pub indexes: Option<Vec<String>>,
    pub unknown: TextMap<Json>,
}

/// The model of [`RawIndexRoot`].
pub struct RawIndexRootView {
    pub path: Option<Seq<char>>,
    pub indexes: Option<Seq<Seq<char>>>,
    pub unknown: Seq<(Seq<char>, JsonView)>,
}

impl DeepView for RawIndexRoot {
    type V = RawIndexRootView;

    open spec fn deep_view(&self) -> RawIndexRootView {
        RawIndexRootView {
            path: self.path.deep_view(),
            indexes: self.indexes.deep_view(),
            unknown: self.unknown.deep_view(),
        }
    }
}

/// Standing index section.
#[derive(Debug, PartialEq, Eq)]
pub struct RawIndex {
    pub roots: Option<Vec<RawIndexRoot>>,
    pub resource_policy: Option<String>,
}

/// The model of [`RawIndex`].
pub struct RawIndexView {
    pub roots: Option<Seq<RawIndexRootView>>,
    pub resource_policy: Option<Seq<char>>,
}

impl DeepView for RawIndex {
    type V = RawIndexView;

    open spec fn deep_view(&self) -> RawIndexView {
        RawIndexView {
            roots: self.roots.deep_view(),
            resource_policy: self.resource_policy.deep_view(),
        }
    }
}

/// A section in which nothing is set.
pub open spec fn unset_index() -> RawIndexView {
    RawIndexView {
        roots: None,
        resource_policy: None,
    }
}

impl Default for RawIndex {
    fn default() -> (out: Self)
        ensures
            out.deep_view() == unset_index(),
    {
        RawIndex {
            roots: None,
            resource_policy: None,
        }
    }
}

/// A configuration document. Unknown keys are refused.
#[derive(Debug, PartialEq, Eq)]
pub struct RawAftConfig {
    pub schema: Option<String>,
    pub enabled: Option<bool>,
    pub edit_mode: Option<RawEditMode>,
    pub format_on_edit: Option<bool>,
    pub formatter_timeout_secs: Option<u32>,
    pub type_checker_timeout_secs: Option<u32>,
    pub validate_on_edit: Option<RawValidateOnEdit>,
    pub formatter: Option<TextMap<RawFormatter>>,
    pub checker: Option<TextMap<RawChecker>>,
    pub configure_warnings_delivery: Option<RawConfigureWarningsDelivery>,
    pub hoist_builtin_tools: Option<bool>,
    pub tool_surface: Option<RawToolSurface>,
    pub disabled_tools: Option<Vec<String>>,
    pub restrict_to_project_root: Option<bool>,
    pub search_index: Option<bool>,
    pub index: Option<RawIndex>,
    pub memory: Option<RawMemory>,
    pub semantic_search: Option<bool>,
    pub callgraph_store: Option<bool>,
    pub callgraph_chunk_size: Option<usize>,
    pub inspect: Option<RawInspect>,
    pub backup: Option<RawBackup>,
    pub worktree: Option<RawWorktree>,
    pub gh_shim: Option<RawGhShim>,
    pub gh_read: Option<RawGhRead>,
    pub git: Option<RawGit>,
    pub sandbox: Option<RawSandbox>,
    pub bash: Option<RawBash>,
    pub experimental: Option<RawExperimental>,
    pub lsp: Option<RawLsp>,
    pub url_fetch_allow_private: Option<bool>,
    pub semantic: Option<RawSemantic>,
    pub auto_update: Option<bool>,
    pub bridge: Option<RawBridge>,
    pub subc: Option<RawSubc>,
    /// Sections by harness, opaque until the active harness is known.
    pub harnesses: Option<TextMap<Json>>,
}

/// The model of [`RawAftConfig`].
pub struct RawAftConfigView {
    pub schema: Option<Seq<char>>,
    pub enabled: Option<bool>,
    pub edit_mode: Option<RawEditModeView>,
    pub format_on_edit: Option<bool>,
    pub formatter_timeout_secs: Option<u32>,
    pub type_checker_timeout_secs: Option<u32>,
    pub validate_on_edit: Option<RawValidateOnEdit>,
    pub formatter: Option<Seq<(Seq<char>, RawFormatter)>>,
    pub checker: Option<Seq<(Seq<char>, RawChecker)>>,
    pub configure_warnings_delivery: Option<RawConfigureWarningsDelivery>,
    pub hoist_builtin_tools: Option<bool>,
    pub tool_surface: Option<RawToolSurface>,
    pub disabled_tools: Option<Seq<Seq<char>>>,
    pub restrict_to_project_root: Option<bool>,
    pub search_index: Option<bool>,
    pub index: Option<RawIndexView>,
    pub memory: Option<RawMemory>,
    pub semantic_search: Option<bool>,
    pub callgraph_store: Option<bool>,
    pub callgraph_chunk_size: Option<usize>,
    pub inspect: Option<RawInspectView>,
    pub backup: Option<RawBackup>,
    pub worktree: Option<RawWorktree>,
    pub gh_shim: Option<RawGhShimView>,
    pub gh_read: Option<RawGhRead>,
    pub git: Option<RawGitView>,
    pub sandbox: Option<RawSandboxView>,
    pub bash: Option<RawBash>,
    pub experimental: Option<RawExperimental>,
    pub lsp: Option<RawLspView>,
    pub url_fetch_allow_private: Option<bool>,
    pub semantic: Option<RawSemanticView>,
    pub auto_update: Option<bool>,
    pub bridge: Option<RawBridge>,
    pub subc: Option<RawSubcView>,
    pub harnesses: Option<Seq<(Seq<char>, JsonView)>>,
}

impl DeepView for RawAftConfig {
    type V = RawAftConfigView;

    open spec fn deep_view(&self) -> RawAftConfigView {
        RawAftConfigView {
            schema: self.schema.deep_view(),
            enabled: self.enabled.deep_view(),
            edit_mode: self.edit_mode.deep_view(),
            format_on_edit: self.format_on_edit.deep_view(),
            formatter_timeout_secs: self.formatter_timeout_secs.deep_view(),
            type_checker_timeout_secs: self.type_checker_timeout_secs.deep_view(),
            validate_on_edit: self.validate_on_edit.deep_view(),
            formatter: self.formatter.deep_view(),
            checker: self.checker.deep_view(),
            configure_warnings_delivery: self.configure_warnings_delivery.deep_view(),
            hoist_builtin_tools: self.hoist_builtin_tools.deep_view(),
            tool_surface: self.tool_surface.deep_view(),
            disabled_tools: self.disabled_tools.deep_view(),
            restrict_to_project_root: self.restrict_to_project_root.deep_view(),
            search_index: self.search_index.deep_view(),
            index: self.index.deep_view(),
            memory: self.memory.deep_view(),
            semantic_search: self.semantic_search.deep_view(),
            callgraph_store: self.callgraph_store.deep_view(),
            callgraph_chunk_size: self.callgraph_chunk_size.deep_view(),
            inspect: self.inspect.deep_view(),
            backup: self.backup.deep_view(),
            worktree: self.worktree.deep_view(),
            gh_shim: self.gh_shim.deep_view(),
            gh_read: self.gh_read.deep_view(),
            git: self.git.deep_view(),
            sandbox: self.sandbox.deep_view(),
            bash: self.bash.deep_view(),
            experimental: self.experimental.deep_view(),
            lsp: self.lsp.deep_view(),
            url_fetch_allow_private: self.url_fetch_allow_private.deep_view(),
            semantic: self.semantic.deep_view(),
            auto_update: self.auto_update.deep_view(),
            bridge: self.bridge.deep_view(),
            subc: self.subc.deep_view(),
            harnesses: self.harnesses.deep_view(),
        }
    }
}

/// A section in which nothing is set.
pub open spec fn unset_aft_config() -> RawAftConfigView {
    RawAftConfigView {
        schema: None,
        enabled: None,
        edit_mode: None,
        format_on_edit: None,
        formatter_timeout_secs: None,
        type_checker_timeout_secs: None,
        validate_on_edit: None,
        formatter: None,
        checker: None,
        configure_warnings_delivery: None,
        hoist_builtin_tools: None,
        tool_surface: None,
        disabled_tools: None,
        restrict_to_project_root: None,
        search_index: None,
        index: None,
        memory: None,
        semantic_search: None,
        callgraph_store: None,
        callgraph_chunk_size: None,
        inspect: None,
        backup: None,
        worktree: None,
        gh_shim: None,
        gh_read: None,
        git: None,
        sandbox: None,
        bash: None,
        experimental: None,
        lsp: None,
        url_fetch_allow_private: None,
        semantic: None,
        auto_update: None,
        bridge: None,
        subc: None,
        harnesses: None,
    }
}

impl Default for RawAftConfig {
    fn default() -> (out: Self)
        ensures
            out.deep_view() == unset_aft_config(),
    {
        RawAftConfig {
            schema: None,
            enabled: None,
            edit_mode: None,
            format_on_edit: None,
            formatter_timeout_secs: None,
            type_checker_timeout_secs: None,
            validate_on_edit: None,
            formatter: None,
            checker: None,
            configure_warnings_delivery: None,
            hoist_builtin_tools: None,
            tool_surface: None,
            disabled_tools: None,
            restrict_to_project_root: None,
            search_index: None,
            index: None,
            memory: None,
            semantic_search: None,
            callgraph_store: None,
            callgraph_chunk_size: None,
            inspect: None,
            backup: None,
            worktree: None,
            gh_shim: None,
            gh_read: None,
            git: None,
            sandbox: None,
            bash: None,
            experimental: None,
            lsp: None,
            url_fetch_allow_private: None,
            semantic: None,
            auto_update: None,
            bridge: None,
            subc: None,
            harnesses: None,
        }
    }
}

impl RawExperimentalBash {
    /// Whether any field is set.
    pub fn has_any_value(&self) -> (yes: bool)
        ensures
            yes == any_experimental_bash(*self),
    {
        self.rewrite.is_some() || self.compress.is_some() || self.background.is_some()
            || self.long_running_reminder_enabled.is_some()
            || self.long_running_reminder_interval_ms.is_some()
    }

    /// Whether one of the three feature flags is set.
    pub fn has_legacy_feature_flag(&self) -> (yes: bool)
        ensures
            yes == has_feature_flag(*self),
    {
        self.rewrite.is_some() || self.compress.is_some() || self.background.is_some()
    }
}

/// Whether any field is set.
pub open spec fn any_experimental_bash(bash: RawExperimentalBash) -> bool {
    has_feature_flag(bash) || bash.long_running_reminder_enabled is Some
        || bash.long_running_reminder_interval_ms is Some
}

/// Whether one of the three feature flags is set.
pub open spec fn has_feature_flag(bash: RawExperimentalBash) -> bool {
    bash.rewrite is Some || bash.compress is Some || bash.background is Some
}

/// A section counts as empty exactly where nothing in it is set.
pub proof fn law_empty_sections_set_nothing(
    semantic: RawSemanticView,
    lsp: RawLspView,
    experimental: RawExperimental,
    inspect_duplicates: RawInspectDuplicatesView,
    inspect: RawInspectView,
    worktree: RawWorktree,
)
    ensures
        empty_semantic(semantic) <==> semantic == unset_semantic(),
        empty_lsp(lsp) <==> lsp == unset_lsp(),
        empty_experimental(experimental) <==> experimental == unset_experimental(),
        empty_inspect_duplicates(inspect_duplicates) <==> inspect_duplicates == unset_inspect_duplicates(),
        empty_inspect(inspect) <==> inspect == unset_inspect(),
        empty_worktree(worktree) <==> worktree == unset_worktree(),
{
}

} // verus!
