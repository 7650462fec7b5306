//! Reading designs in the older positional text format: one value to a line,
//! under a header that names the product that wrote the file. A file is
//! read line by line into what each line holds by the layout; what the
//! values mean for hull, armor, machinery and weapons is left to those.

use vstd::prelude::*;
use crate::layout::{
    kind, spec_kind, Kind, BATTERIES, BATTERY_AFT_ABOVE_AGAIN, BATTERY_AFT_BELOW_AGAIN,
    BATTERY_AFT_ON, BATTERY_FORE_ABOVE_AGAIN, BATTERY_FORE_BELOW_AGAIN, BATTERY_MOUNT_NUM, LINES,
    NEEDED, YEAR,
};
use crate::num::Num;
use crate::parse::{
    parse_count, parse_decimal, parse_flag, percent, spec_parse_count, spec_parse_decimal,
    spec_percent, spec_ungrouped,
};
use crate::text::{contains, spec_contains, views};

verus! {

/// The name by which the header knows the product.
pub const SIGNATURE: &'static str = "SpringSharp";

/// The name and version of the product whose files are read.
pub const SIGNATURE_READ: &'static str = "SpringSharp Version 3.0";

/// Why a file in the positional format is not read.
#[derive(Clone, Copy, Debug, PartialEq, Eq, Structural)]
pub enum ImportError {
    /// The header names the product, in a version that is not read.
    UnsupportedVersion,
    /// The header does not name the product.
    UnknownFormat,
    /// A line does not hold what its place asks for.
    FormatError,
}

impl ImportError {
    pub open spec fn spec_message(self) -> Seq<char> {
        match self {
            ImportError::UnsupportedVersion => "SpringSharp file too old"@,
            ImportError::UnknownFormat => "Unknown file format"@,
            ImportError::FormatError => "Malformed value"@,
        }
    }

    /// The error in words.
    pub fn message(self) -> (r: String)
        ensures
            r@ == self.spec_message(),
    {
        match self {
            ImportError::UnsupportedVersion => "SpringSharp file too old".to_owned(),
            ImportError::UnknownFormat => "Unknown file format".to_owned(),
            ImportError::FormatError => "Malformed value".to_owned(),
        }
    }
}

pub open spec fn spec_check_header(line: Seq<char>) -> Result<(), ImportError> {
    if spec_contains(line, SIGNATURE_READ@) {
        Ok(())
    } else if spec_contains(line, SIGNATURE@) {
        Err(ImportError::UnsupportedVersion)
    } else {
        Err(ImportError::UnknownFormat)
    }
}

/// Tests the first line of a file: it is read where the line names the
/// product in the version that is read; the version is unsupported where
/// the line names the product otherwise; else the format is unknown.
pub fn check_header(line: &str) -> (r: Result<(), ImportError>)
    ensures
        r == spec_check_header(line@),
{
    if contains(line, SIGNATURE_READ) {
        Ok(())
    } else if contains(line, SIGNATURE) {
        Err(ImportError::UnsupportedVersion)
    } else {
        Err(ImportError::UnknownFormat)
    }
}

/// The mounts that stand on deck in the first group of a battery, which the
/// format does not hold: the battery's mounts less those of the first group
/// above and below deck and those of the second group above, on and below
/// deck. None where those are more than the battery has.
pub open spec fn spec_mounts_on_deck(
    mounts: u32,
    above: u32,
    below: u32,
    other_above: u32,
    other_on: u32,
    other_below: u32,
) -> Option<u32> {
    let placed = above + below + other_above + other_on + other_below;
    if placed <= mounts {
        Some((mounts - placed) as u32)
    } else {
        None
    }
}

/// The mounts that stand on deck in the first group of a battery, which the
/// format does not hold: the battery's mounts less those of the first group
/// above and below deck and those of the second group above, on and below
/// deck. None where those are more than the battery has.
pub fn mounts_on_deck(
    mounts: u32,
    above: u32,
    below: u32,
    other_above: u32,
    other_on: u32,
    other_below: u32,
) -> (r: Option<u32>)
    ensures
        r == spec_mounts_on_deck(mounts, above, below, other_above, other_on, other_below),
{
    let placed: u64 = above as u64 + below as u64 + other_above as u64 + other_on as u64
        + other_below as u64;
    if placed <= mounts as u64 {
        Some((mounts as u64 - placed) as u32)
    } else {
        None
    }
}

/// What was read from a line.
#[derive(Clone, Debug, PartialEq)]
pub enum Cell {
    /// The text of the line.
    Text(String),
    /// The number on it; hundredths are made parts of the whole.
    Number(Num),
    /// The whole number on it.
    Count(u32),
    /// Whether the flag on it is set.
    Flag(bool),
    /// Nothing: the line is passed over.
    Skipped,
}

/// What was read from a line, its text as characters.
pub enum CellView {
    Text(Seq<char>),
    Number(Num),
    Count(u32),
    Flag(bool),
    Skipped,
}

impl View for Cell {
    type V = CellView;

    open spec fn view(&self) -> CellView {
        match self {
            Cell::Text(t) => CellView::Text(t@),
            Cell::Number(n) => CellView::Number(*n),
            Cell::Count(c) => CellView::Count(*c),
            Cell::Flag(f) => CellView::Flag(*f),
            Cell::Skipped => CellView::Skipped,
        }
    }
}

/// What a line of a kind holds; none where the line is not of the kind.
pub open spec fn spec_decode(kind: Kind, line: Seq<char>) -> Option<CellView> {
    match kind {
        Kind::Text => Some(CellView::Text(line)),
        Kind::Number => match spec_parse_decimal(spec_ungrouped(line)) {
            Some(n) => Some(CellView::Number(n)),
            None => None,
        },
        Kind::Percent => match spec_parse_decimal(spec_ungrouped(line)) {
            Some(n) => Some(CellView::Number(spec_percent(n))),
            None => None,
        },
        Kind::Count => match spec_parse_count(line) {
            Some(c) => Some(CellView::Count(c)),
            None => None,
        },
        Kind::Byte => match spec_parse_count(line) {
            Some(c) => if c <= 255 {
                Some(CellView::Count(c))
            } else {
                None
            },
            None => None,
        },
        Kind::Flag => Some(CellView::Flag(line == "True"@)),
        Kind::Skip => Some(CellView::Skipped),
    }
}

/// Reads a line of a kind; none where the line is not of the kind.
pub fn decode(kind: Kind, line: &str) -> (r: Option<Cell>)
    ensures
        r is Some == spec_decode(kind, line@) is Some,
        r is Some ==> r->0@ == spec_decode(kind, line@)->0,
{
    match kind {
        Kind::Text => Some(Cell::Text(line.to_owned())),
        Kind::Number => match parse_decimal(line) {
            Some(n) => Some(Cell::Number(n)),
            None => None,
        },
        Kind::Percent => match parse_decimal(line) {
            Some(n) => Some(Cell::Number(percent(n))),
            None => None,
        },
        Kind::Count => match parse_count(line) {
            Some(c) => Some(Cell::Count(c)),
            None => None,
        },
        Kind::Byte => match parse_count(line) {
            Some(c) => if c <= 255 {
                Some(Cell::Count(c))
            } else {
                None
            },
            None => None,
        },
        Kind::Flag => Some(Cell::Flag(parse_flag(line))),
        Kind::Skip => Some(Cell::Skipped),
    }
}

/// Whether what was read is of a kind.
pub open spec fn spec_fits(kind: Kind, cell: CellView) -> bool {
    match kind {
        Kind::Text => cell is Text,
        Kind::Number => cell is Number,
        Kind::Percent => cell is Number,
        Kind::Count => cell is Count,
        Kind::Byte => cell is Count && cell->Count_0 <= 255,
        Kind::Flag => cell is Flag,
        Kind::Skip => cell is Skipped,
    }
}

/// What a file holds: the value of each line that is laid out, and the
/// designer's notes.
#[derive(Clone, Debug, PartialEq)]
pub struct Design {
    /// What each line holds, `LINES` of them.
    pub cells: Vec<Cell>,
    /// The lines that follow.
    pub notes: Vec<String>,
}

impl Design {
    /// Whether every line holds what the layout asks of it.
    pub open spec fn wf(&self) -> bool {
        self.cells.len() == LINES && forall|at: int|
            0 <= at < LINES ==> spec_fits(spec_kind(at), #[trigger] self.cells[at]@)
    }

    /// Whether this is what the lines of a file hold.
    pub open spec fn holds(&self, lines: Seq<Seq<char>>) -> bool {
        &&& self.wf()
        &&& lines.len() >= NEEDED
        &&& forall|at: int|
            0 <= at < NEEDED ==> Some(#[trigger] self.cells[at]@) == spec_decode(
                spec_kind(at),
                lines[at],
            )
        &&& views(self.notes@) == if lines.len() > LINES {
            lines.skip(LINES as int)
        } else {
            Seq::empty()
        }
    }

    /// The number at a place of numbers.
    pub fn number(&self, at: usize) -> (r: Num)
        requires
            self.wf(),
            at < LINES,
            spec_kind(at as int) == Kind::Number || spec_kind(at as int) == Kind::Percent,
        ensures
            self.cells[at as int]@ == CellView::Number(r),
    {
        match &self.cells[at] {
            Cell::Number(n) => *n,
            _ => Num::Undefined,
        }
    }

    /// The whole number at a place of whole numbers.
    pub fn count(&self, at: usize) -> (r: u32)
        requires
            self.wf(),
            at < LINES,
            spec_kind(at as int) == Kind::Count || spec_kind(at as int) == Kind::Byte,
        ensures
            self.cells[at as int]@ == CellView::Count(r),
            spec_kind(at as int) == Kind::Byte ==> r <= 255,
    {
        match &self.cells[at] {
            Cell::Count(c) => *c,
            _ => 0,
        }
    }

    /// The flag at a place of flags.
    pub fn flag(&self, at: usize) -> (r: bool)
        requires
            self.wf(),
            at < LINES,
            spec_kind(at as int) == Kind::Flag,
        ensures
            self.cells[at as int]@ == CellView::Flag(r),
    {
        match &self.cells[at] {
            Cell::Flag(f) => *f,
            _ => false,
        }
    }

    /// The text at a place of text.
    pub fn text(&self, at: usize) -> (r: String)
        requires
            self.wf(),
            at < LINES,
            spec_kind(at as int) == Kind::Text,
        ensures
            self.cells[at as int]@ == CellView::Text(r@),
    {
        match &self.cells[at] {
            Cell::Text(t) => t.clone(),
            _ => String::new(),
        }
    }

    /// The whole number at a place of whole numbers.
    pub open spec fn spec_count(&self, at: int) -> u32 {
        self.cells[at]@->Count_0
    }

    pub open spec fn spec_on_deck(&self, battery: int) -> Option<u32> {
        spec_mounts_on_deck(
            self.spec_count(BATTERY_MOUNT_NUM + 3 * battery),
            self.spec_count(BATTERY_FORE_ABOVE_AGAIN + battery),
            self.spec_count(BATTERY_FORE_BELOW_AGAIN + battery),
            self.spec_count(BATTERY_AFT_ABOVE_AGAIN + battery),
            self.spec_count(BATTERY_AFT_ON + battery),
            self.spec_count(BATTERY_AFT_BELOW_AGAIN + battery),
        )
    }

    /// The mounts on deck in the first group of a battery, which no line
    /// holds: the battery's mounts less all that are placed elsewhere. None
    /// where more are placed than the battery has.
    pub fn on_deck(&self, battery: usize) -> (r: Option<u32>)
        requires
            self.wf(),
            battery < BATTERIES,
        ensures
            r == self.spec_on_deck(battery as int),
    {
        mounts_on_deck(
            self.count(BATTERY_MOUNT_NUM + 3 * battery),
            self.count(BATTERY_FORE_ABOVE_AGAIN + battery),
            self.count(BATTERY_FORE_BELOW_AGAIN + battery),
            self.count(BATTERY_AFT_ABOVE_AGAIN + battery),
            self.count(BATTERY_AFT_ON + battery),
            self.count(BATTERY_AFT_BELOW_AGAIN + battery),
        )
    }

    /// The year of torpedoes, mines and anti-submarine weapons, which no
    /// line holds: the year in which the ship is laid down.
    pub fn weapons_year(&self) -> (r: u32)
        requires
            self.wf(),
        ensures
            r == self.spec_count(YEAR as int),
    {
        self.count(YEAR)
    }
}

/// Whether one of the lines that are needed is not of its kind.
pub open spec fn spec_malformed(lines: Seq<Seq<char>>) -> bool {
    exists|at: int| 0 <= at < NEEDED && at < lines.len() && spec_decode(
        spec_kind(at),
        #[trigger] lines[at],
    ) is None
}

/// Why the lines of a file are not read; none where they are.
pub open spec fn spec_refusal(lines: Seq<Seq<char>>) -> Option<ImportError> {
    if lines.len() == 0 {
        Some(ImportError::FormatError)
    } else {
        match spec_check_header(lines[0]) {
            Err(e) => Some(e),
            Ok(_) => if lines.len() < NEEDED || spec_malformed(lines) {
                Some(ImportError::FormatError)
            } else {
                None
            },
        }
    }
}

/// Reads the lines of a file. The header is tested first: a file of an
/// older version or of another format is refused as such. Then every line
/// that is laid out is read by its kind; a file that is too short, or in
/// which a line is not of its kind, is malformed. The lines after the
/// layout are the designer's notes.
pub fn read(lines: &Vec<String>) -> (r: Result<Design, ImportError>)
    ensures
        match r {
            Ok(design) => spec_refusal(views(lines@)) is None && design.holds(views(lines@)),
            Err(e) => spec_refusal(views(lines@)) == Some(e),
        },
{
    let ghost texts = views(lines@);
    if lines.len() == 0 {
        return Err(ImportError::FormatError);
    }
    match check_header(lines[0].as_str()) {
        Err(e) => {
            return Err(e);
        },
        Ok(_) => {},
    }
    if lines.len() < NEEDED {
        return Err(ImportError::FormatError);
    }
    let mut cells: Vec<Cell> = Vec::new();
    let mut at: usize = 0;
    while at < LINES
        invariant
            at <= LINES,
            lines.len() >= NEEDED,
            texts == views(lines@),
            spec_check_header(texts[0]) is Ok,
            cells.len() == at,
            forall|i: int| 0 <= i < at ==> spec_fits(spec_kind(i), #[trigger] cells[i]@),
            forall|i: int|
                0 <= i < at && i < NEEDED ==> spec_decode(spec_kind(i), #[trigger] texts[i])
                    is Some,
            forall|i: int|
                0 <= i < at && i < NEEDED ==> Some(#[trigger] cells[i]@) == spec_decode(
                    spec_kind(i),
                    texts[i],
                ),
        decreases LINES - at,
    {
        if at < NEEDED {
            assert(texts[at as int] == lines[at as int]@);
            match decode(kind(at), lines[at].as_str()) {
                Some(cell) => {
                    cells.push(cell);
                },
                None => {
                    return Err(ImportError::FormatError);
                },
            }
        } else {
            cells.push(Cell::Skipped);
        }
        at += 1;
    }
    let mut notes: Vec<String> = Vec::new();
    let mut i: usize = LINES;
    while i < lines.len()
        invariant
            LINES <= i,
            i <= lines.len() || i == LINES,
            texts == views(lines@),
            lines.len() >= NEEDED,
            spec_refusal(texts) is None,
            cells.len() == LINES,
            forall|k: int| 0 <= k < LINES ==> spec_fits(spec_kind(k), #[trigger] cells[k]@),
            forall|k: int|
                0 <= k < NEEDED ==> Some(#[trigger] cells[k]@) == spec_decode(
                    spec_kind(k),
                    texts[k],
                ),
            i <= lines.len() ==> views(notes@) == texts.subrange(LINES as int, i as int),
            i > lines.len() ==> views(notes@) == Seq::<Seq<char>>::empty(),
        decreases lines.len() - i,
    {
        notes.push(lines[i].clone());
        assert(texts.subrange(LINES as int, i + 1) =~= texts.subrange(
            LINES as int,
            i as int,
        ).push(texts[i as int]));
        i += 1;
    }
    assert(lines.len() > LINES ==> texts.subrange(LINES as int, lines.len() as int)
        =~= texts.skip(LINES as int));
    assert(lines.len() == LINES ==> texts.subrange(LINES as int, LINES as int)
        =~= Seq::<Seq<char>>::empty());
    Ok(Design { cells, notes })
}

} // verus!
