//! The banner as a whole: from what the system returned to the lines to
//! print and the status to exit with.

use crate::color::{ColorSpec, CustomColor, Palette};
use crate::facts::{
    collect, collected, diagnostic, labels, row_order, ErrorModel, FactModel, Label, Policy,
    Readings, ReadingsModel, UNKNOWN,
};
use crate::layout::{art_texts, is_rendering, law_plain_rendering, plain_row, render};
use crate::text::texts;
use vstd::prelude::*;

verus! {

/// The art that the banner shows by default, line by line.
pub const ASCII_ART: [&'static str; 18] = [
    "⠀⠀⠀⠀⠀⠀⠀⠀⠀⠀⣤⣀⣀⠀⠀⣀⡠⠴⠒⠚⠉⠉⠓⠒⠦⣄⣶⠒⣷⡀⠀⠀⠀⠀⠀⠀⠀⠀⠀⠀⠀⠀⠀⠀⠀",
    "⠀⠀⠀⠀⠀⠀⠀⠀⠀⠀⠘⡷⢬⣉⠉⠁⠀⠀⠀⠀⠀⠀⠀⠀⠠⡌⠻⣧⢻⣧⣤⠀⠀⠀⠀⠀⠀⠀⠀⠀⠀⠀⠀⠀⠀",
    "⠀⠀⠀⠀⠀⠀⠀⠀⠀⠀⣖⠗⡋⢹⠀⠀⢰⡄⠀⠀⢸⣷⡀⠀⣠⠽⣆⢼⣇⢻⣸⡄⠀⠀⠀⠀⠀⠀⠀⠀⠀⠀⠀⠀⠀",
    "⠀⠀⠀⠀⠀⠀⠀⠀⢀⡜⣡⣶⢋⡏⠙⢢⣏⣇⠀⠀⠈⣇⡵⡏⠀⠀⢹⡏⢾⣿⠃⢿⡆⠀⠀⠀⠀⠀⠀⠀⠀⠀⠀⠀⠀",
    "⠀⠀⠀⠀⠀⠀⠀⠀⣾⢿⢻⣏⣿⡇⡄⣾⠀⠹⡄⠄⠀⡇⠀⠹⣤⠈⠹⣿⣾⢸⠀⢘⣷⣄⣀⠀⠀⠀⠀⠀⠀⠀⠀⠀⠀",
    "⠀⠀⠀⠀⠀⠀⠀⢠⣴⣯⣿⣽⣿⣷⢸⡗⠦⣄⡹⣼⣄⣿⣴⠛⠹⡄⡇⣿⣿⠾⠚⢹⢿⢽⣽⡇⠀⠀⠀⠀⠀⠀⠀⠀⠀",
    "⠀⠀⠀⠀⠀⠀⠀⣸⣿⣞⣾⣿⢿⣯⢻⢻⡴⠞⠁⠈⠻⣿⣌⡉⠓⣿⣰⡿⠀⠀⠀⠸⡜⡾⣿⡇⠀⠀⠀⠀⠀⠀⠀⠀⠀",
    "⠀⠀⠀⠀⠀⢀⡴⣡⠊⢸⣹⠁⠈⠙⣾⡄⠁⠀⢰⠛⠉⠉⠉⢳⣀⣿⣿⠃⠀⠀⣀⣀⣧⣿⡞⣷⡀⠀⠀⠀⠀⠀⠀⠀⠀",
    "⠀⠀⠀⠀⣠⠋⡴⠁⠀⠸⢿⣤⣤⣤⣹⣿⣷⣶⣾⣷⣶⣶⣺⣋⣽⣿⣷⠶⠟⠛⠋⢧⠀⠀⠸⡜⣷⠀⠀⠀⠀⠀⠀⠀⠀",
    "⠀⠀⢀⡜⠁⡰⠁⠀⠀⢠⡿⠀⠀⠀⠉⠉⠉⠙⢻⡟⣹⣿⠃⣿⠋⠁⠀⠀⠀⠀⠀⠸⡄⠀⠀⢣⠹⣧⠀⠀⠀⠀⠀⠀⠀",
    "⠀⢠⠏⡀⢠⠇⠀⠀⢠⡿⠁⠀⠀⠀⠀⣤⣶⡴⠚⢻⠡⣸⠀⢹⣆⠀⠀⠀⠀⠀⠀⠀⡇⠀⠀⠸⡄⢻⣇⠀⠀⠀⠀⠀⠀",
    "⢀⡏⣼⠁⢸⠀⠀⠀⣾⠃⠀⠀⠀⠀⠀⢻⣿⣧⣀⣬⠋⠁⠀⣠⣿⣶⣆⠀⠀⠀⠀⠀⡇⠀⠀⠀⡇⠈⣿⡀⠀⠀⠀⠀⠀",
    "⣸⣸⣿⠀⡇⠀⢰⣸⡟⠀⠀⠀⣀⣠⠴⠚⣟⣻⣧⣯⣗⣤⣾⣿⣿⡿⠋⠀⠀⠀⠀⣸⣤⠀⠀⠀⡇⡆⢻⠃⠀⠀⠀⠀⠀",
    "⣿⡿⢸⡀⣇⠀⣸⣿⡁⠀⣾⣻⡁⣀⣤⣶⠟⠋⠉⠛⢿⣋⣻⡏⠉⠀⠀⠀⠀⠀⢰⣿⡇⠀⠀⠀⣷⡇⣸⡄⠀⠀⠀⠀⠀",
    "⠿⠇⠀⢧⢸⠀⣿⡿⠇⠀⠈⠛⠛⠋⠉⠀⠀⠀⠀⠀⡟⠀⣿⠇⠀⠀⠀⠀⠀⢠⣿⣿⡇⠀⠀⣰⡿⣧⣿⠃⠀⠀⠀⠀⠀",
    "⠀⠀⠀⠀⢿⣄⣹⡇⠀⠀⠀⠀⠀⠀⠀⠀⠀⠀⠀⢰⡇⠀⣿⠀⠀⠀⠀⠀⠀⣸⡿⢸⠁⢠⣾⠋⢰⣿⡏⠀⠀⠀⠀⠀⠀",
    "⠀⠀⠀⠀⠀⠉⠛⠛⠀⠀⠀⠀⠀⠀⠀⠀⠀⠀⠀⣼⣶⣶⡿⠀⠀⠀⠀⠀⠀⠉⠁⢸⣶⡟⠁⠀⠾⠟⠀⠀⠀⠀⠀⠀⠀",
    "⠀⠀⠀⠀⠀⠀⠀⠀⠀⠀⠀⠀⠀⠀⠀⠀⠀⠀⠀⠈⠉⠉⠀⠀⠀⠀⠀⠀⠀⠀⠀⠈⠉⠀⠀⠀⠀⠀⠀⠀⠀⠀⠀⠀⠀",
];

/// The lines of the art that the banner shows by default.
pub open spec fn default_art_lines() -> Seq<Seq<char>> {
    Seq::new(18, |i: int| ASCII_ART@[i]@)
}

/// The art that the banner shows by default.
pub fn default_art() -> (art: Vec<String>)
    ensures
        texts(art@) == default_art_lines(),
{
    let mut art: Vec<String> = Vec::new();
    let mut i: usize = 0;
    while i < 18
        invariant
            i <= 18,
            art.len() == i,
            forall|k: int| 0 <= k < i ==> (#[trigger] art@[k])@ == ASCII_ART@[k]@,
        decreases 18 - i,
    {
        art.push(String::from_str(ASCII_ART[i]));
        i += 1;
    }
    assert(texts(art@) =~= default_art_lines());
    art
}

/// The colours that the banner shows by default: the art in a blue, the text
/// in a pink.
pub fn default_palette() -> (palette: Palette)
    ensures
        palette.art == ColorSpec::Rgb(CustomColor { r: 27, g: 140, b: 157 }),
        palette.text == ColorSpec::Rgb(CustomColor { r: 255, g: 111, b: 145 }),
{
    Palette {
        art: ColorSpec::Rgb(CustomColor { r: 27, g: 140, b: 157 }),
        text: ColorSpec::Rgb(CustomColor { r: 255, g: 111, b: 145 }),
    }
}

/// What a run prints and how it ends.
#[derive(Debug, PartialEq, Eq)]
pub struct Report {
    /// The lines to print, from the top.
    pub lines: Vec<String>,
    /// The status to exit with.
    pub status: i32,
}

/// The status of a run that collected every fact.
pub const SUCCESS: i32 = 0;

/// The status of a run that failed to collect a fact.
pub const FAILURE: i32 = 1;

/// The status that a run ends with, given how its collection ended.
pub open spec fn exit_status(outcome: Result<Seq<FactModel>, ErrorModel>) -> int {
    match outcome {
        Ok(_) => SUCCESS as int,
        Err(_) => FAILURE as int,
    }
}

/// Whether `lines` and `status` are what a run on `readings` prints and ends
/// with. Where every fact is collected, the lines are a rendering of the
/// facts. Where one fails, the one line is the diagnostic: nothing is
/// rendered.
pub open spec fn is_report(
    readings: ReadingsModel,
    policy: Policy,
    art: Option<Seq<Seq<char>>>,
    palette: Option<Palette>,
    lines: Seq<Seq<char>>,
    status: int,
) -> bool {
    &&& status == exit_status(collected(readings, policy))
    &&& match collected(readings, policy) {
        Ok(facts) => is_rendering(facts, art, palette, lines),
        Err(error) => lines == seq![diagnostic(error)],
    }
}

/// Runs the banner on what the system returned: collects the facts and
/// renders them, or reports the first failure.
pub fn run(
    readings: &Readings,
    policy: Policy,
    art: Option<&Vec<String>>,
    palette: Option<Palette>,
) -> (report: Report)
    ensures
        is_report(
            readings@,
            policy,
            art_texts(art),
            palette,
            texts(report.lines@),
            report.status as int,
        ),
{
    match collect(readings, policy) {
        Ok(facts) => Report { lines: render(&facts, art, palette), status: SUCCESS },
        Err(error) => {
            let mut lines: Vec<String> = Vec::new();
            lines.push(error.message());
            assert(texts(lines@) =~= seq![diagnostic(error@)]);
            Report { lines, status: FAILURE }
        },
    }
}

/// Every fact is collected exactly when both files were read, the user has a
/// name and, under the strict policy, both environment variables are set.
/// Neither the architecture nor, under the lenient policy, the environment
/// can fail a run. The facts collected are the eight of the rows, in their
/// order.
pub proof fn law_collection_succeeds(readings: ReadingsModel, policy: Policy)
    ensures
        collected(readings, policy) is Ok <==> {
            &&& readings.kernel is Ok
            &&& readings.user is Some
            &&& readings.board is Ok
            &&& policy == Policy::Strict ==> readings.terminal is Some && readings.desktop is Some
        },
        collected(readings, policy) matches Ok(facts) ==> labels(facts) == row_order(),
{
    if let Ok(facts) = collected(readings, policy) {
        assert(labels(facts) =~= row_order());
    }
}

/// Where the system reports no architecture, the run ends with the status it
/// would have with any architecture `other`, and where it collects the facts,
/// the fifth is the architecture with the value `Unknown`, whose row without
/// colours reads `Arch:     Unknown`.
pub proof fn law_absent_arch_is_unknown(readings: ReadingsModel, policy: Policy, other: Seq<char>)
    requires
        readings.arch is None,
    ensures
        exit_status(collected(readings, policy)) == exit_status(
            collected(ReadingsModel { arch: Some(other), ..readings }, policy),
        ),
        collected(readings, policy) matches Ok(facts) ==> {
            &&& facts[4].label == Label::Arch
            &&& facts[4].value == "Unknown"@
            &&& plain_row(facts[4]) == "Arch:     Unknown"@
        },
{
    reveal_strlit("Unknown");
    reveal_strlit("Arch:");
    reveal_strlit("Arch:     Unknown");
    if let Ok(facts) = collected(readings, policy) {
        assert(facts[4].value == UNKNOWN@);
        assert(plain_row(facts[4]) =~= "Arch:     Unknown"@);
    }
}

/// A run without art and without colours, on readings that hold no
/// architecture and fail no fact, ends with status 0 and prints
/// `Arch:     Unknown` as its fifth line.
pub proof fn law_absent_arch_is_printed(
    readings: ReadingsModel,
    policy: Policy,
    lines: Seq<Seq<char>>,
    status: int,
)
    requires
        readings.arch is None,
        collected(readings, policy) is Ok,
        is_report(readings, policy, None, None, lines, status),
    ensures
        status == 0,
        lines.len() == 8,
        lines[4] == "Arch:     Unknown"@,
{
    let facts = collected(readings, policy)->Ok_0;
    law_absent_arch_is_unknown(readings, policy, Seq::empty());
    law_plain_rendering(facts, None, lines);
}

} // verus!
