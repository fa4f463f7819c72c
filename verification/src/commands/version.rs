//! The version command.

use crate::utils::text::{centered, padded_right, push_centered, push_padded_right, push_repeated, repeated};
use vstd::prelude::*;
use vstd::string::StringExecFns;

verus! {

/// What the tool says about itself.
#[derive(Debug, Clone, PartialEq, Eq)]
pub struct VersionInfo {
    pub name: String,
    pub version: String,
    pub build_date: String,
    pub ruby_version: String,
    pub platform: String,
    pub description: String,
    pub repository: String,
}

/// The view of [`VersionInfo`] in specifications.
pub struct VersionInfoView {
    pub name: Seq<char>,
    pub version: Seq<char>,
    pub build_date: Seq<char>,
    pub ruby_version: Seq<char>,
    pub platform: Seq<char>,
    pub description: Seq<char>,
    pub repository: Seq<char>,
}

impl View for VersionInfo {
    type V = VersionInfoView;

    open spec fn view(&self) -> VersionInfoView {
        VersionInfoView {
            name: self.name@,
            version: self.version@,
            build_date: self.build_date@,
            ruby_version: self.ruby_version@,
            platform: self.platform@,
            description: self.description@,
            repository: self.repository@,
        }
    }
}

/// How the tool names its runtime: the language and the compiler version.
pub open spec fn runtime_text(rust_version: Seq<char>) -> Seq<char> {
    "Rust "@ + rust_version
}

/// How the tool names its runtime.
pub fn runtime_label(rust_version: &str) -> (label: String)
    ensures
        label@ == runtime_text(rust_version@),
{
    let mut label = String::from_str("Rust ");
    label.append(rust_version);
    label
}

/// The tool's account of itself, built with the given compiler version
/// on the given platform.
pub open spec fn version_info(rust_version: Seq<char>, platform: Seq<char>) -> VersionInfoView {
    VersionInfoView {
        name: "PTD Ruby CLI"@,
        version: "1.0.0"@,
        build_date: "2025-01-15"@,
        ruby_version: runtime_text(rust_version),
        platform,
        description: "Polyglot Transpilation Development Reference Implementation"@,
        repository: "https://github.com/ai-ptd-dev/ptd-ruby-cli"@,
    }
}

/// A horizontal rule of the box, between the two given corners.
pub open spec fn box_rule(left: char, right: char) -> Seq<char> {
    seq![left] + repeated('\u{2550}', 59) + seq![right]
}

/// A row of the box: the label, then the value in a field of forty-four
/// characters.
pub open spec fn box_row(label: Seq<char>, value: Seq<char>) -> Seq<char> {
    "\u{2551} "@ + label + padded_right(value, 44) + " \u{2551}"@
}

/// The boxed banner for `info`.
pub open spec fn formatted_lines(info: VersionInfoView) -> Seq<Seq<char>> {
    seq![
        box_rule('\u{2554}', '\u{2557}'),
        "\u{2551}                    PTD Ruby CLI (Rust)                    \u{2551}"@,
        box_rule('\u{2560}', '\u{2563}'),
        box_row("Version:      "@, info.version),
        box_row("Build Date:   "@, info.build_date),
        box_row("Rust Version: "@, info.ruby_version),
        box_row("Platform:     "@, info.platform),
        box_rule('\u{2560}', '\u{2563}'),
        "\u{2551} "@ + centered(info.description, 57) + " \u{2551}"@,
        box_rule('\u{255a}', '\u{255d}'),
    ]
}

fn rule_line(left: char, right: char) -> (s: String)
    ensures
        s@ == box_rule(left, right),
{
    let mut s = String::new();
    s.push(left);
    push_repeated(&mut s, '\u{2550}', 59);
    s.push(right);
    s
}

fn row_line(label: &str, value: &str) -> (s: String)
    ensures
        s@ == box_row(label@, value@),
{
    let mut s = String::from_str("\u{2551} ");
    s.append(label);
    push_padded_right(&mut s, value, 44);
    s.append(" \u{2551}");
    s
}

/// What the command puts out: the account itself, for the host to write
/// as JSON, or the lines of the banner.
#[derive(Debug, Clone, PartialEq, Eq)]
pub enum VersionOutput {
    Json(VersionInfo),
    Lines(Vec<String>),
}

/// The version command.
#[derive(Debug, Clone, Copy, PartialEq, Eq, Structural)]
pub struct VersionCommand {
    pub json_output: bool,
}

impl VersionCommand {
    /// The tool's version.
    pub const VERSION: &'static str = "1.0.0";

    /// The day the tool was built.
    pub const BUILD_DATE: &'static str = "2025-01-15";

    pub fn new(json_output: bool) -> (command: Self)
        ensures
            command.json_output == json_output,
    {
        Self { json_output }
    }

    /// The tool's account of itself. `rust_version` and `platform` are
    /// the compiler version and the operating system it was built for.
    pub fn build_version_info(&self, rust_version: &str, platform: &str) -> (info: VersionInfo)
        ensures
            info@ == version_info(rust_version@, platform@),
    {
        VersionInfo {
            name: String::from_str("PTD Ruby CLI"),
            version: String::from_str("1.0.0"),
            build_date: String::from_str("2025-01-15"),
            ruby_version: runtime_label(rust_version),
            platform: String::from_str(platform),
            description: String::from_str(
                "Polyglot Transpilation Development Reference Implementation",
            ),
            repository: String::from_str("https://github.com/ai-ptd-dev/ptd-ruby-cli"),
        }
    }

    /// The boxed banner for `info`, line by line.
    pub fn display_formatted(&self, info: &VersionInfo) -> (lines: Vec<String>)
        ensures
            lines.deep_view() == formatted_lines(info@),
    {
        let mut lines: Vec<String> = Vec::new();
        lines.push(rule_line('\u{2554}', '\u{2557}'));
        lines.push(
            String::from_str(
                "\u{2551}                    PTD Ruby CLI (Rust)                    \u{2551}",
            ),
        );
        lines.push(rule_line('\u{2560}', '\u{2563}'));
        lines.push(row_line("Version:      ", info.version.as_str()));
        lines.push(row_line("Build Date:   ", info.build_date.as_str()));
        lines.push(row_line("Rust Version: ", info.ruby_version.as_str()));
        lines.push(row_line("Platform:     ", info.platform.as_str()));
        lines.push(rule_line('\u{2560}', '\u{2563}'));
        let mut description = String::from_str("\u{2551} ");
        push_centered(&mut description, info.description.as_str(), 57);
        description.append(" \u{2551}");
        lines.push(description);
        lines.push(rule_line('\u{255a}', '\u{255d}'));
        assert(lines.deep_view() =~= formatted_lines(info@));
        lines
    }

    /// What the command puts out: the account itself where JSON is asked
    /// for, the banner otherwise.
    pub fn execute(&self, rust_version: &str, platform: &str) -> (output: VersionOutput)
        ensures
            match output {
                VersionOutput::Json(info) => self.json_output && info@ == version_info(
                    rust_version@,
                    platform@,
                ),
                VersionOutput::Lines(lines) => !self.json_output && lines.deep_view()
                    == formatted_lines(version_info(rust_version@, platform@)),
            },
    {
        let info = self.build_version_info(rust_version, platform);
        if self.json_output {
            VersionOutput::Json(info)
        } else {
            VersionOutput::Lines(self.display_formatted(&info))
        }
    }
}

} // verus!
