//! The two-column layout: the art on the left, the facts on the right, the
//! info column starting at the same cell in every row.

use crate::color::{is_painting, paint, ColorSpec, Palette};
use crate::facts::{fact_models, Fact, FactModel, Label};
use crate::text::{blank, spaces, texts};
use crate::width::{display_width, largest, lemma_largest, width_of, widths};
use vstd::prelude::*;

verus! {

/// The text of `label`; the title and the separator have none.
pub open spec fn label_text(label: Label) -> Seq<char> {
    match label {
        Label::Title => Seq::empty(),
        Label::Separator => Seq::empty(),
        Label::Os => "OS:"@,
        Label::Kernel => "Kernel:"@,
        Label::Arch => "Arch:"@,
        Label::System => "System:"@,
        Label::Terminal => "Terminal:"@,
        Label::Wm => "WM:"@,
    }
}

/// The number of spaces between the text of `label` and the value.
pub open spec fn label_gap(label: Label) -> nat {
    match label {
        Label::Title => 0,
        Label::Separator => 0,
        Label::Os => 7,
        Label::Kernel => 3,
        Label::Arch => 5,
        Label::System => 3,
        Label::Terminal => 1,
        Label::Wm => 7,
    }
}

/// Whether a row about `label` shows the value alone.
pub open spec fn is_bare(label: Label) -> bool {
    label == Label::Title || label == Label::Separator
}

/// The row about `label`, given the label and the value as they are shown.
pub open spec fn row_text(label: Label, shown_label: Seq<char>, shown_value: Seq<char>) -> Seq<
    char,
> {
    if is_bare(label) {
        shown_value
    } else {
        shown_label + spaces(label_gap(label)) + shown_value
    }
}

/// The row of `fact` without colours.
pub open spec fn plain_row(fact: FactModel) -> Seq<char> {
    row_text(fact.label, label_text(fact.label), fact.value)
}

/// The rows of `facts` without colours.
pub open spec fn plain_rows(facts: Seq<FactModel>) -> Seq<Seq<char>> {
    Seq::new(facts.len(), |i: int| plain_row(facts[i]))
}

/// Whether `line` is the row of `fact` in the colour `color`: the label and
/// the value are each shown in that colour, and the spaces between them are
/// not.
pub open spec fn is_info_line(color: Option<ColorSpec>, fact: FactModel, line: Seq<char>) -> bool {
    if is_bare(fact.label) {
        is_painting(color, fact.value, line)
    } else {
        exists|shown_label: Seq<char>, shown_value: Seq<char>|
            {
                &&& is_painting(color, label_text(fact.label), shown_label)
                &&& is_painting(color, fact.value, shown_value)
                &&& line == #[trigger] row_text(fact.label, shown_label, shown_value)
            }
    }
}

/// Whether `lines` are the rows of `facts` in the colour `color`, in order.
pub open spec fn are_info_lines(
    color: Option<ColorSpec>,
    facts: Seq<FactModel>,
    lines: Seq<Seq<char>>,
) -> bool {
    &&& lines.len() == facts.len()
    &&& forall|i: int| 0 <= i < facts.len() ==> is_info_line(color, facts[i], #[trigger] lines[i])
}

/// The text of `label`.
pub fn label_of(label: Label) -> (text: &'static str)
    ensures
        text@ == label_text(label),
{
    match label {
        Label::Title | Label::Separator => {
            proof {
                reveal_strlit("");
                assert(""@ =~= Seq::<char>::empty());
            }
            ""
        },
        Label::Os => "OS:",
        Label::Kernel => "Kernel:",
        Label::Arch => "Arch:",
        Label::System => "System:",
        Label::Terminal => "Terminal:",
        Label::Wm => "WM:",
    }
}

/// The number of spaces between the text of `label` and the value.
pub fn gap_of(label: Label) -> (gap: usize)
    ensures
        gap == label_gap(label),
{
    match label {
        Label::Title => 0,
        Label::Separator => 0,
        Label::Os => 7,
        Label::Kernel => 3,
        Label::Arch => 5,
        Label::System => 3,
        Label::Terminal => 1,
        Label::Wm => 7,
    }
}

/// Puts a row together from the label and the value as they are shown.
pub fn compose_row(label: Label, shown_label: &str, shown_value: &str) -> (row: String)
    ensures
        row@ == row_text(label, shown_label@, shown_value@),
{
    match label {
        Label::Title | Label::Separator => String::from_str(shown_value),
        _ => {
            let gap = blank(gap_of(label));
            String::from_str(shown_label).concat(gap.as_str()).concat(shown_value)
        },
    }
}

/// The row of `fact` in the colour `color`. The colour is applied to the
/// label and to the value, each by itself.
pub fn info_line(fact: &Fact, color: Option<ColorSpec>) -> (line: String)
    ensures
        is_info_line(color, fact@, line@),
        color is None ==> line@ == plain_row(fact@),
{
    match fact.label {
        Label::Title | Label::Separator => paint(color, fact.value.as_str()),
        _ => {
            let shown_label = paint(color, label_of(fact.label));
            let shown_value = paint(color, fact.value.as_str());
            compose_row(fact.label, shown_label.as_str(), shown_value.as_str())
        },
    }
}

/// The rows of `facts` in the colour `color`, in order.
pub fn info_lines(facts: &Vec<Fact>, color: Option<ColorSpec>) -> (lines: Vec<String>)
    ensures
        are_info_lines(color, fact_models(facts@), texts(lines@)),
        color is None ==> texts(lines@) == plain_rows(fact_models(facts@)),
{
    let mut lines: Vec<String> = Vec::new();
    let mut i: usize = 0;
    while i < facts.len()
        invariant
            i <= facts.len(),
            lines.len() == i,
            forall|k: int|
                0 <= k < i ==> is_info_line(color, (#[trigger] facts@[k])@, lines@[k]@),
            color is None ==> forall|k: int|
                0 <= k < i ==> (#[trigger] lines@[k])@ == plain_row(facts@[k]@),
        decreases facts.len() - i,
    {
        let line = info_line(&facts[i], color);
        lines.push(line);
        i += 1;
    }
    proof {
        let models = fact_models(facts@);
        let shown = texts(lines@);
        assert forall|k: int| 0 <= k < models.len() implies is_info_line(
            color,
            models[k],
            #[trigger] shown[k],
        ) by {
            assert(is_info_line(color, facts@[k]@, lines@[k]@));
        }
        if color is None {
            assert(shown =~= plain_rows(models));
        }
    }
    lines
}

/// A line of art as it is shown, with the display width of its text.
#[derive(Debug, PartialEq, Eq)]
pub struct ArtCell {
    /// The line, with whatever styling it was given.
    pub shown: String,
    /// The display width of the line, measured before any styling.
    pub width: usize,
}

/// The mathematical content of an [`ArtCell`].
pub struct ArtCellModel {
    pub shown: Seq<char>,
    pub width: nat,
}

impl View for ArtCell {
    type V = ArtCellModel;

    open spec fn view(&self) -> ArtCellModel {
        ArtCellModel { shown: self.shown@, width: self.width as nat }
    }
}

/// The contents of `cells`, in order.
pub open spec fn cell_models(cells: Seq<ArtCell>) -> Seq<ArtCellModel> {
    Seq::new(cells.len(), |i: int| cells[i]@)
}

/// The width of each cell.
pub open spec fn cell_widths(cells: Seq<ArtCellModel>) -> Seq<nat> {
    Seq::new(cells.len(), |i: int| cells[i].width)
}

/// The width of the art column: that of its widest line.
pub open spec fn art_width(cells: Seq<ArtCellModel>) -> nat {
    largest(cell_widths(cells))
}

/// The number of spaces behind line `i` of the art that bring it to the width
/// of the art column.
pub open spec fn padding(cells: Seq<ArtCellModel>, i: int) -> nat {
    (art_width(cells) - cells[i].width) as nat
}

/// The left part of row `i`: the line of art and its padding, or spaces alone
/// below the art.
pub open spec fn left_cell(cells: Seq<ArtCellModel>, i: int) -> Seq<char> {
    if i < cells.len() {
        cells[i].shown + spaces(padding(cells, i))
    } else {
        spaces(art_width(cells))
    }
}

/// The right part of row `i`: the info line, or nothing below the facts.
pub open spec fn right_cell(info: Seq<Seq<char>>, i: int) -> Seq<char> {
    if i < info.len() {
        info[i]
    } else {
        Seq::empty()
    }
}

/// Row `i` of the two columns: the left part, one space, the right part.
pub open spec fn paired_row(cells: Seq<ArtCellModel>, info: Seq<Seq<char>>, i: int) -> Seq<char> {
    left_cell(cells, i) + seq![' '] + right_cell(info, i)
}

/// The number of rows of two columns of the given lengths.
pub open spec fn row_count(art_lines: nat, info_lines: nat) -> nat {
    if art_lines >= info_lines {
        art_lines
    } else {
        info_lines
    }
}

/// The rows of the two columns side by side.
pub open spec fn paired_rows(cells: Seq<ArtCellModel>, info: Seq<Seq<char>>) -> Seq<Seq<char>> {
    Seq::new(row_count(cells.len(), info.len()), |i: int| paired_row(cells, info, i))
}

/// The width of the art column.
pub fn widest(cells: &Vec<ArtCell>) -> (width: usize)
    ensures
        width == art_width(cell_models(cells@)),
{
    let ghost widths = cell_widths(cell_models(cells@));
    let mut width: usize = 0;
    let mut i: usize = 0;
    while i < cells.len()
        invariant
            i <= cells.len(),
            widths == cell_widths(cell_models(cells@)),
            width == largest(widths.take(i as int)),
        decreases cells.len() - i,
    {
        assert(widths.take(i + 1).drop_last() =~= widths.take(i as int));
        assert(widths.take(i + 1).last() == cells@[i as int].width);
        if cells[i].width > width {
            width = cells[i].width;
        }
        i += 1;
    }
    assert(widths.take(i as int) =~= widths);
    width
}

/// Lays the art and the info lines side by side. Every line of art is padded
/// with spaces to the width of the widest, so that the info column starts at
/// the same cell in every row; the shorter column is continued with empty
/// cells.
pub fn pair_columns(cells: &Vec<ArtCell>, info: &Vec<String>) -> (rows: Vec<String>)
    ensures
        texts(rows@) == paired_rows(cell_models(cells@), texts(info@)),
{
    let ghost models = cell_models(cells@);
    let ghost lines = texts(info@);
    let target = widest(cells);
    let count = if cells.len() >= info.len() {
        cells.len()
    } else {
        info.len()
    };
    let mut rows: Vec<String> = Vec::new();
    let mut i: usize = 0;
    while i < count
        invariant
            i <= count,
            count == row_count(cells.len() as nat, info.len() as nat),
            models == cell_models(cells@),
            lines == texts(info@),
            target == art_width(models),
            rows.len() == i,
            forall|k: int| 0 <= k < i ==> (#[trigger] rows@[k])@ == paired_row(models, lines, k),
        decreases count - i,
    {
        let mut row = if i < cells.len() {
            proof {
                lemma_largest(cell_widths(models));
                assert(cell_widths(models)[i as int] == cells@[i as int].width);
            }
            let pad = blank(target - cells[i].width);
            String::from_str(cells[i].shown.as_str()).concat(pad.as_str())
        } else {
            blank(target)
        };
        assert(row@ == left_cell(models, i as int));
        proof {
            reveal_strlit(" ");
            assert(" "@ =~= seq![' ']);
        }
        row.append(" ");
        if i < info.len() {
            row.append(info[i].as_str());
        }
        assert(row@ =~= paired_row(models, lines, i as int));
        rows.push(row);
        i += 1;
    }
    assert(texts(rows@) =~= paired_rows(models, lines));
    rows
}

/// Whether `cell` is the line `line` of the art in the colour `color`, with
/// its display width.
pub open spec fn is_art_cell(color: Option<ColorSpec>, line: Seq<char>, cell: ArtCellModel) -> bool {
    &&& is_painting(color, line, cell.shown)
    &&& cell.width == display_width(line)
}

/// Whether `cells` are the lines of `art` in the colour `color`, in order.
pub open spec fn are_art_cells(
    color: Option<ColorSpec>,
    art: Seq<Seq<char>>,
    cells: Seq<ArtCellModel>,
) -> bool {
    &&& cells.len() == art.len()
    &&& forall|i: int| 0 <= i < art.len() ==> is_art_cell(color, art[i], #[trigger] cells[i])
}

/// The cells of `art` without colours.
pub open spec fn plain_cells(art: Seq<Seq<char>>) -> Seq<ArtCellModel> {
    Seq::new(art.len(), |i: int| ArtCellModel { shown: art[i], width: display_width(art[i]) })
}

/// Measures each line of `art`, then shows it in the colour `color`. The
/// width is that of the line itself, not of the line with its styling.
pub fn art_cells(art: &Vec<String>, color: Option<ColorSpec>) -> (cells: Vec<ArtCell>)
    ensures
        are_art_cells(color, texts(art@), cell_models(cells@)),
        color is None ==> cell_models(cells@) == plain_cells(texts(art@)),
{
    let mut cells: Vec<ArtCell> = Vec::new();
    let mut i: usize = 0;
    while i < art.len()
        invariant
            i <= art.len(),
            cells.len() == i,
            forall|k: int|
                0 <= k < i ==> is_art_cell(color, art@[k]@, (#[trigger] cells@[k])@),
            color is None ==> forall|k: int|
                0 <= k < i ==> (#[trigger] cells@[k])@.shown == art@[k]@,
        decreases art.len() - i,
    {
        let width = width_of(art[i].as_str());
        let shown = paint(color, art[i].as_str());
        cells.push(ArtCell { shown, width });
        i += 1;
    }
    proof {
        let lines = texts(art@);
        let models = cell_models(cells@);
        assert forall|k: int| 0 <= k < lines.len() implies is_art_cell(
            color,
            lines[k],
            #[trigger] models[k],
        ) by {
            assert(is_art_cell(color, art@[k]@, cells@[k]@));
        }
        if color is None {
            assert forall|k: int| 0 <= k < lines.len() implies models[k] == plain_cells(
                lines,
            )[k] by {
                assert(is_art_cell(color, art@[k]@, cells@[k]@));
                assert(cells@[k]@.shown == art@[k]@);
            }
            assert(models =~= plain_cells(lines));
        }
    }
    cells
}

/// The colour of the art column, if there is a palette.
pub open spec fn art_color(palette: Option<Palette>) -> Option<ColorSpec> {
    match palette {
        Some(palette) => Some(palette.art),
        None => None,
    }
}

/// The colour of the info column, if there is a palette.
pub open spec fn text_color(palette: Option<Palette>) -> Option<ColorSpec> {
    match palette {
        Some(palette) => Some(palette.text),
        None => None,
    }
}

/// The rows, given the info lines and the cells of the art as they are shown:
/// the info lines alone where there is no art, the two columns side by side
/// where there is.
pub open spec fn arranged(cells: Option<Seq<ArtCellModel>>, info: Seq<Seq<char>>) -> Seq<
    Seq<char>,
> {
    match cells {
        Some(cells) => paired_rows(cells, info),
        None => info,
    }
}

/// Whether `rows` is a rendering of `facts` beside `art` in the colours of
/// `palette`: some way of showing each label, value and line of art in its
/// colour, arranged in rows.
pub open spec fn is_rendering(
    facts: Seq<FactModel>,
    art: Option<Seq<Seq<char>>>,
    palette: Option<Palette>,
    rows: Seq<Seq<char>>,
) -> bool {
    exists|info: Seq<Seq<char>>, cells: Option<Seq<ArtCellModel>>|
        {
            &&& are_info_lines(text_color(palette), facts, info)
            &&& match art {
                Some(art) => cells is Some && are_art_cells(art_color(palette), art, cells->Some_0),
                None => cells is None,
            }
            &&& rows == #[trigger] arranged(cells, info)
        }
}

/// The rendering of `facts` beside `art` without colours.
pub open spec fn plain_rendering(facts: Seq<FactModel>, art: Option<Seq<Seq<char>>>) -> Seq<
    Seq<char>,
> {
    match art {
        Some(art) => arranged(Some(plain_cells(art)), plain_rows(facts)),
        None => plain_rows(facts),
    }
}

/// The number of lines of an optional block of art.
pub open spec fn art_len(art: Option<Seq<Seq<char>>>) -> nat {
    match art {
        Some(art) => art.len(),
        None => 0,
    }
}

/// The width of the art column of `art`: the largest display width of its
/// lines.
pub open spec fn column_width(art: Seq<Seq<char>>) -> nat {
    largest(widths(art))
}

/// Whether `row` is made of `left`, `pad` spaces, one more space and `info`.
pub open spec fn is_aligned_row(row: Seq<char>, left: Seq<char>, pad: nat, info: Seq<char>) -> bool {
    row == left + spaces(pad) + seq![' '] + info
}

/// The lines of an optional block of art.
pub open spec fn art_texts(art: Option<&Vec<String>>) -> Option<Seq<Seq<char>>> {
    match art {
        Some(art) => Some(texts(art@)),
        None => None,
    }
}

/// Renders the facts, beside the art where there is any, in the colours of
/// the palette where there is one. The result holds one string for each row,
/// from the top.
pub fn render(facts: &Vec<Fact>, art: Option<&Vec<String>>, palette: Option<Palette>) -> (rows:
    Vec<String>)
    ensures
        is_rendering(fact_models(facts@), art_texts(art), palette, texts(rows@)),
        palette is None ==> texts(rows@) == plain_rendering(fact_models(facts@), art_texts(art)),
        rows.len() == row_count(art_len(art_texts(art)), facts.len() as nat),
{
    let (for_art, for_text) = match palette {
        Some(palette) => (Some(palette.art), Some(palette.text)),
        None => (None, None),
    };
    let info = info_lines(facts, for_text);
    match art {
        Some(art) => {
            let cells = art_cells(art, for_art);
            let rows = pair_columns(&cells, &info);
            assert(texts(rows@) == arranged(Some(cell_models(cells@)), texts(info@)));
            rows
        },
        None => {
            assert(texts(info@) == arranged(None, texts(info@)));
            info
        },
    }
}

/// The column at which every value starts in a row that has a label.
pub open spec fn value_column() -> nat {
    10
}

/// The spacing table lines the values up: in every row that has a label, the
/// label and its gap take ten cells, and the value follows.
pub proof fn law_values_are_aligned(fact: FactModel)
    requires
        !is_bare(fact.label),
    ensures
        label_text(fact.label).len() + label_gap(fact.label) == value_column(),
        plain_row(fact).len() == value_column() + fact.value.len(),
        plain_row(fact).skip(value_column() as int) == fact.value,
{
    reveal_strlit("OS:");
    reveal_strlit("Kernel:");
    reveal_strlit("Arch:");
    reveal_strlit("System:");
    reveal_strlit("Terminal:");
    reveal_strlit("WM:");
    assert(plain_row(fact).skip(value_column() as int) =~= fact.value);
}

proof fn lemma_cells_of_art(color: Option<ColorSpec>, art: Seq<Seq<char>>, cells: Seq<ArtCellModel>)
    requires
        are_art_cells(color, art, cells),
    ensures
        art_width(cells) == column_width(art),
        color is None ==> cells == plain_cells(art),
{
    assert(cell_widths(cells) =~= widths(art));
    if color is None {
        assert(cells =~= plain_cells(art));
    }
}

proof fn lemma_plain_info(facts: Seq<FactModel>, info: Seq<Seq<char>>)
    ensures
        are_info_lines(None, facts, info) <==> info == plain_rows(facts),
{
    if are_info_lines(None, facts, info) {
        assert forall|i: int| 0 <= i < facts.len() implies info[i] == plain_row(facts[i]) by {
            assert(is_info_line(None, facts[i], info[i]));
        }
        assert(info =~= plain_rows(facts));
    }
    if info == plain_rows(facts) {
        assert forall|i: int| 0 <= i < facts.len() implies is_info_line(
            None,
            facts[i],
            #[trigger] info[i],
        ) by {
            let f = facts[i];
            assert(info[i] == row_text(f.label, label_text(f.label), f.value));
        }
    }
}

/// Without colours there is one rendering, and it is `plain_rendering`.
pub proof fn law_plain_rendering(
    facts: Seq<FactModel>,
    art: Option<Seq<Seq<char>>>,
    rows: Seq<Seq<char>>,
)
    ensures
        is_rendering(facts, art, None, rows) <==> rows == plain_rendering(facts, art),
{
    if is_rendering(facts, art, None, rows) {
        let (info, cells) = choose|info: Seq<Seq<char>>, cells: Option<Seq<ArtCellModel>>|
            {
                &&& are_info_lines(text_color(None), facts, info)
                &&& match art {
                    Some(art) => cells is Some && are_art_cells(
                        art_color(None),
                        art,
                        cells->Some_0,
                    ),
                    None => cells is None,
                }
                &&& rows == #[trigger] arranged(cells, info)
            };
        lemma_plain_info(facts, info);
        if let Some(art) = art {
            lemma_cells_of_art(None, art, cells->Some_0);
        }
    }
    if rows == plain_rendering(facts, art) {
        let info = plain_rows(facts);
        lemma_plain_info(facts, info);
        match art {
            Some(lines) => {
                let cells = plain_cells(lines);
                assert(are_art_cells(None, lines, cells));
                assert(rows == arranged(Some(cells), info));
            },
            None => {
                assert(rows == arranged(None, info));
            },
        }
    }
}

/// Rendering without colours is a function of the facts and the art: two
/// renderings of the same input are the same rows.
pub proof fn law_rendering_is_deterministic(
    facts: Seq<FactModel>,
    art: Option<Seq<Seq<char>>>,
    first: Seq<Seq<char>>,
    second: Seq<Seq<char>>,
)
    requires
        is_rendering(facts, art, None, first),
        is_rendering(facts, art, None, second),
    ensures
        first == second,
{
    law_plain_rendering(facts, art, first);
    law_plain_rendering(facts, art, second);
}

/// A rendering has as many rows as the longer of its two columns.
pub proof fn law_row_count(
    facts: Seq<FactModel>,
    art: Option<Seq<Seq<char>>>,
    palette: Option<Palette>,
    rows: Seq<Seq<char>>,
)
    requires
        is_rendering(facts, art, palette, rows),
    ensures
        rows.len() == row_count(art_len(art), facts.len()),
{
}

/// The width of the art column is the largest display width among the lines
/// of the art: no line is wider, and a block that has lines has one of that
/// width.
pub proof fn law_column_width(art: Seq<Seq<char>>)
    ensures
        forall|i: int| 0 <= i < art.len() ==> display_width(#[trigger] art[i]) <= column_width(art),
        art.len() > 0 ==> exists|i: int|
            0 <= i < art.len() && display_width(#[trigger] art[i]) == column_width(art),
        art.len() == 0 ==> column_width(art) == 0,
{
    let ws = widths(art);
    lemma_largest(ws);
    assert forall|i: int| 0 <= i < art.len() implies display_width(#[trigger] art[i])
        <= column_width(art) by {
        assert(ws[i] == display_width(art[i]));
    }
    if art.len() > 0 {
        let k = choose|i: int| 0 <= i < ws.len() && ws[i] == largest(ws);
        assert(display_width(art[k]) == column_width(art));
    }
}

/// Beside art, the info column starts at the same cell in every row. Row `i`
/// is a left part, padding, one space and an info part. Where the art has a
/// line `i`, the left part is that line in the colour of the art, and the
/// display width of the line and the padding add up to the width of the art
/// column; below the art the left part is empty and the padding fills the
/// column. Where there is a fact `i`, the info part is its row; below the
/// facts it is empty.
pub proof fn law_info_column_is_aligned(
    facts: Seq<FactModel>,
    art: Seq<Seq<char>>,
    palette: Option<Palette>,
    rows: Seq<Seq<char>>,
    i: int,
)
    requires
        is_rendering(facts, Some(art), palette, rows),
        0 <= i < rows.len(),
    ensures
        exists|left: Seq<char>, pad: nat, info: Seq<char>|
            {
                &&& #[trigger] is_aligned_row(rows[i], left, pad, info)
                &&& i < art.len() ==> is_painting(art_color(palette), art[i], left)
                    && display_width(art[i]) + pad == column_width(art)
                &&& i >= art.len() ==> left == Seq::<char>::empty() && pad == column_width(art)
                &&& i < facts.len() ==> is_info_line(text_color(palette), facts[i], info)
                &&& i >= facts.len() ==> info == Seq::<char>::empty()
            },
{
    let (lines, cells) = choose|info: Seq<Seq<char>>, cells: Option<Seq<ArtCellModel>>|
        {
            &&& are_info_lines(text_color(palette), facts, info)
            &&& match Some(art) {
                Some(art) => cells is Some && are_art_cells(
                    art_color(palette),
                    art,
                    cells->Some_0,
                ),
                None => cells is None,
            }
            &&& rows == #[trigger] arranged(cells, info)
        };
    let cells = cells->Some_0;
    lemma_cells_of_art(art_color(palette), art, cells);
    law_column_width(art);
    assert(rows[i] == paired_row(cells, lines, i));
    let info = right_cell(lines, i);
    if i < art.len() {
        let left = cells[i].shown;
        let pad = padding(cells, i);
        assert(is_art_cell(art_color(palette), art[i], cells[i]));
        assert(is_aligned_row(rows[i], left, pad, info));
    } else {
        let left = Seq::<char>::empty();
        let pad = column_width(art);
        assert(left + spaces(pad) =~= spaces(pad));
        assert(is_aligned_row(rows[i], left, pad, info));
    }
}

} // verus!
