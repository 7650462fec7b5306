use sharpie::import::{decode, read, Cell, Design, ImportError};
use sharpie::layout::{
    kind, shells_at, Kind, ARMOR_BH_KIND, ARMOR_MAIN_THICK, ASW2_KIND, BATTERIES, BATTERY_AFT_ABOVE,
    BATTERY_AFT_ABOVE_AGAIN, BATTERY_AFT_BELOW_AGAIN, BATTERY_AFT_LAYOUT, BATTERY_AFT_LOWER_DECK,
    BATTERY_AFT_ON, BATTERY_ARMOR_FACE, BATTERY_DIAM, BATTERY_FORE_ABOVE, BATTERY_FORE_ABOVE_AGAIN,
    BATTERY_FORE_BELOW_AGAIN, BATTERY_KIND, BATTERY_MOUNT_KIND, BATTERY_MOUNT_NUM, BATTERY_NUM,
    BATTERY_SHELLS, BATTERY_SHELL_WGT, BATTERY_UNITS, BATTERY_YEAR, COUNTRY, DRIVE_HYDRAULIC,
    ENGINE_PCT_COAL, ENGINE_SHAFTS, ENGINE_VMAX, FUEL_COAL, FUEL_OIL, HEADER, HULL_B, HULL_BB,
    HULL_FC_LEN, HULL_FD_LEN, HULL_LWL, HULL_QD_LEN, HULL_STERN_TYPE, KIND, LINES, NAME, NEEDED,
    TRIM, WGTS_VITAL, WGTS_VOID, YEAR,
};
use sharpie::num::Num;

/// The kinds of the lines, as the format lays them out: T for text, N for a
/// number, P for hundredths, C for a count, B for a byte, F for a flag, S for
/// a line that is passed over.
const KINDS: &str = "TTTTTTTTTTTTCCNNNTNNNPNNPNNPNNNNCNTCCNCNTCCNCNTCCNCNTCCNCNTCCNCCTTCTTCTTCTTCTTCCNNNNNNNNNNNNNNNNNNNNNNNNNNNNNNNNCCPFFFFFFFFFFFFBNCCCCCCTNTTTTNNNNNCCCCTTTTTCCCCCFFFFFCCCCCCCCCCFFFFFCCNNNTTCCNTCCCCNNTTCCCNNNNCNNNTNCCCCCCCCCCCCCCCSSSSSCCCCCTTTTTTTTTTCSSSSSSSSSSSSSSSSSSSSSSSSSSSSSSSSS";

fn letter(k: Kind) -> char {
    match k {
        Kind::Text => 'T',
        Kind::Number => 'N',
        Kind::Percent => 'P',
        Kind::Count => 'C',
        Kind::Byte => 'B',
        Kind::Flag => 'F',
        Kind::Skip => 'S',
    }
}

/// A file in which every line holds a value of its kind.
fn file() -> Vec<String> {
    let mut lines: Vec<String> = KINDS
        .chars()
        .enumerate()
        .map(|(at, k)| match k {
            'T' => format!("text {}", at),
            'N' => format!("{}.5", at),
            'P' => "25".to_string(),
            'C' => format!("{}", at),
            'B' => "50".to_string(),
            'F' => "False".to_string(),
            _ => "passed over".to_string(),
        })
        .collect();
    lines[HEADER] = "SpringSharp Version 3.0".to_string();
    lines[NAME] = "Dreadnought".to_string();
    lines[COUNTRY] = "Great Britain".to_string();
    lines[YEAR] = "1905".to_string();
    lines[HULL_LWL] = "520".to_string();
    lines[BATTERY_SHELL_WGT] = "1,250.5".to_string();
    lines[FUEL_COAL] = "True".to_string();
    lines.push("First note".to_string());
    lines.push("".to_string());
    lines.push("Third note".to_string());
    lines
}

fn design() -> Design {
    read(&file()).unwrap()
}

#[test]
fn layout_has_its_lines() {
    assert_eq!(KINDS.len(), LINES);
    assert_eq!(LINES, 281);
    assert_eq!(NEEDED, 248);
    assert_eq!(BATTERIES, 5);
    assert_eq!(WGTS_VOID + 1, NEEDED);
}

#[test]
fn kind_of_each_line() {
    let got: String = (0..LINES).map(|at| letter(kind(at))).collect();
    assert_eq!(got, KINDS);
    assert_eq!(kind(LINES), Kind::Skip);
    assert_eq!(kind(usize::MAX), Kind::Skip);
}

#[test]
fn kinds_of_named_values() {
    assert_eq!(kind(HEADER), Kind::Text);
    assert_eq!(kind(KIND), Kind::Text);
    assert_eq!(kind(YEAR), Kind::Count);
    assert_eq!(kind(WGTS_VITAL), Kind::Count);
    assert_eq!(kind(HULL_LWL), Kind::Number);
    assert_eq!(kind(HULL_STERN_TYPE), Kind::Text);
    assert_eq!(kind(HULL_QD_LEN), Kind::Percent);
    assert_eq!(kind(HULL_FD_LEN), Kind::Percent);
    assert_eq!(kind(HULL_FC_LEN), Kind::Percent);
    assert_eq!(kind(ENGINE_PCT_COAL), Kind::Percent);
    assert_eq!(kind(TRIM), Kind::Byte);
    assert_eq!(kind(ARMOR_BH_KIND), Kind::Count);
    assert_eq!(kind(ARMOR_MAIN_THICK), Kind::Number);
    assert_eq!(kind(ENGINE_SHAFTS), Kind::Count);
    assert_eq!(kind(DRIVE_HYDRAULIC), Kind::Flag);
    assert_eq!(kind(ASW2_KIND), Kind::Text);
    for b in 0..BATTERIES {
        assert_eq!(kind(BATTERY_UNITS + b), Kind::Text);
        assert_eq!(kind(BATTERY_NUM + 6 * b), Kind::Count);
        assert_eq!(kind(BATTERY_DIAM + 6 * b), Kind::Number);
        assert_eq!(kind(BATTERY_KIND + 6 * b), Kind::Text);
        assert_eq!(kind(BATTERY_FORE_ABOVE + 6 * b), Kind::Count);
        assert_eq!(kind(BATTERY_SHELL_WGT + 6 * b), Kind::Number);
        assert_eq!(kind(BATTERY_MOUNT_NUM + 3 * b), Kind::Count);
        assert_eq!(kind(BATTERY_MOUNT_KIND + 3 * b), Kind::Text);
        assert_eq!(kind(BATTERY_ARMOR_FACE + 3 * b), Kind::Number);
        assert_eq!(kind(BATTERY_YEAR + b), Kind::Count);
        assert_eq!(kind(BATTERY_AFT_ABOVE + b), Kind::Count);
        assert_eq!(kind(BATTERY_AFT_LOWER_DECK + b), Kind::Flag);
        assert_eq!(kind(BATTERY_AFT_LAYOUT + b), Kind::Text);
        assert_eq!(kind(shells_at(b)), Kind::Count);
    }
    assert_eq!(shells_at(0), BATTERY_SHELLS);
    assert_eq!(shells_at(1), 146);
    assert_eq!(shells_at(4), 149);
}

#[test]
fn decode_by_kind() {
    assert_eq!(decode(Kind::Text, " any text "), Some(Cell::Text(" any text ".to_string())));
    assert_eq!(decode(Kind::Number, "1,250.5"), Some(Cell::Number(Num::Micro(1_250_500_000))));
    assert_eq!(decode(Kind::Number, "twelve"), None);
    assert_eq!(decode(Kind::Percent, "25"), Some(Cell::Number(Num::Micro(250_000))));
    assert_eq!(decode(Kind::Percent, "12.5"), Some(Cell::Number(Num::Micro(125_000))));
    assert_eq!(decode(Kind::Percent, "%"), None);
    assert_eq!(decode(Kind::Count, "12"), Some(Cell::Count(12)));
    assert_eq!(decode(Kind::Count, "12.5"), None);
    assert_eq!(decode(Kind::Count, "300"), Some(Cell::Count(300)));
    assert_eq!(decode(Kind::Byte, "255"), Some(Cell::Count(255)));
    assert_eq!(decode(Kind::Byte, "256"), None);
    assert_eq!(decode(Kind::Byte, "-1"), None);
    assert_eq!(decode(Kind::Flag, "True"), Some(Cell::Flag(true)));
    assert_eq!(decode(Kind::Flag, "False"), Some(Cell::Flag(false)));
    assert_eq!(decode(Kind::Flag, "anything"), Some(Cell::Flag(false)));
    assert_eq!(decode(Kind::Skip, "anything"), Some(Cell::Skipped));
}

#[test]
fn file_is_read_line_by_line() {
    let d = design();
    assert_eq!(d.cells.len(), LINES);
    assert_eq!(d.text(NAME), "Dreadnought");
    assert_eq!(d.text(COUNTRY), "Great Britain");
    assert_eq!(d.text(KIND), "text 3");
    assert_eq!(d.count(YEAR), 1905);
    assert_eq!(d.count(WGTS_VITAL), 13);
    assert_eq!(d.number(HULL_LWL), Num::Micro(520_000_000));
    assert_eq!(d.number(HULL_B), Num::Micro(15_500_000));
    assert_eq!(d.number(HULL_BB), Num::Micro(128_500_000));
    assert_eq!(d.number(ENGINE_VMAX), Num::Micro(110_500_000));
    assert_eq!(d.count(TRIM), 50);
    assert!(d.flag(FUEL_COAL));
    assert!(!d.flag(FUEL_OIL));
    assert_eq!(d.count(WGTS_VOID), 247);
    for (at, cell) in d.cells.iter().enumerate() {
        let want = match KINDS.as_bytes()[at] {
            b'T' => matches!(cell, Cell::Text(_)),
            b'N' | b'P' => matches!(cell, Cell::Number(_)),
            b'C' | b'B' => matches!(cell, Cell::Count(_)),
            b'F' => matches!(cell, Cell::Flag(_)),
            _ => matches!(cell, Cell::Skipped),
        };
        assert!(want, "{}: {:?}", at, cell);
    }
}

#[test]
fn hundredths_become_parts() {
    let d = design();
    assert_eq!(d.number(HULL_QD_LEN), Num::Micro(250_000));
    assert_eq!(d.number(HULL_FD_LEN), Num::Micro(250_000));
    assert_eq!(d.number(HULL_FC_LEN), Num::Micro(250_000));
    assert_eq!(d.number(ENGINE_PCT_COAL), Num::Micro(250_000));
}

#[test]
fn grouping_separators_in_a_file() {
    let d = design();
    assert_eq!(d.number(BATTERY_SHELL_WGT), Num::Micro(1_250_500_000));
    let mut lines = file();
    lines[HULL_LWL] = "1,520.25".to_string();
    assert_eq!(read(&lines).unwrap().number(HULL_LWL), Num::Micro(1_520_250_000));
}

#[test]
fn notes_follow_the_layout() {
    assert_eq!(design().notes, vec!["First note", "", "Third note"]);
    let mut lines = file();
    lines.truncate(LINES);
    assert_eq!(read(&lines).unwrap().notes, Vec::<String>::new());
    lines.truncate(LINES - 1);
    assert_eq!(read(&lines).unwrap().notes, Vec::<String>::new());
}

#[test]
fn lines_that_are_passed_over_may_be_missing() {
    let mut lines = file();
    lines.truncate(NEEDED);
    let d = read(&lines).unwrap();
    assert_eq!(d.cells.len(), LINES);
    assert_eq!(d.count(WGTS_VOID), 247);
    assert_eq!(d.cells[NEEDED], Cell::Skipped);
    assert_eq!(d.cells[LINES - 1], Cell::Skipped);
    assert_eq!(d.notes, Vec::<String>::new());
    assert_eq!(d.cells[..NEEDED], design().cells[..NEEDED]);
}

#[test]
fn short_file_is_malformed() {
    let mut lines = file();
    lines.truncate(NEEDED - 1);
    assert_eq!(read(&lines), Err(ImportError::FormatError));
    lines.truncate(1);
    assert_eq!(read(&lines), Err(ImportError::FormatError));
    assert_eq!(read(&vec![]), Err(ImportError::FormatError));
}

#[test]
fn header_is_tested_first() {
    let mut lines = file();
    lines[HEADER] = "SpringSharp Version 2.1".to_string();
    assert_eq!(read(&lines), Err(ImportError::UnsupportedVersion));
    lines[YEAR] = "not a year".to_string();
    assert_eq!(read(&lines), Err(ImportError::UnsupportedVersion));
    lines.truncate(1);
    assert_eq!(read(&lines), Err(ImportError::UnsupportedVersion));
    assert_eq!(read(&vec!["Some other file".to_string()]), Err(ImportError::UnknownFormat));
    assert_eq!(read(&vec!["".to_string()]), Err(ImportError::UnknownFormat));
}

#[test]
fn line_that_is_not_of_its_kind() {
    for (at, bad) in [
        (YEAR, "1905.5"),
        (YEAR, ""),
        (HULL_LWL, "long"),
        (HULL_QD_LEN, "25%"),
        (TRIM, "256"),
        (WGTS_VOID, "-1"),
        (BATTERY_NUM + 6 * 4, "four"),
        (ARMOR_BH_KIND, "x"),
    ] {
        let mut lines = file();
        lines[at] = bad.to_string();
        assert_eq!(read(&lines), Err(ImportError::FormatError), "{} {:?}", at, bad);
    }
    // Lines that are passed over hold anything.
    let mut lines = file();
    lines[227] = "anything".to_string();
    lines[NEEDED] = "anything".to_string();
    assert!(read(&lines).is_ok());
}

#[test]
fn mounts_on_deck_are_filled_in() {
    let mut lines = file();
    for b in 0..BATTERIES {
        lines[BATTERY_MOUNT_NUM + 3 * b] = "12".to_string();
        lines[BATTERY_FORE_ABOVE + 6 * b] = "9".to_string();
        lines[BATTERY_FORE_ABOVE_AGAIN + b] = "2".to_string();
        lines[BATTERY_FORE_BELOW_AGAIN + b] = "4".to_string();
        lines[BATTERY_AFT_ABOVE + b] = "9".to_string();
        lines[BATTERY_AFT_ABOVE_AGAIN + b] = "1".to_string();
        lines[BATTERY_AFT_ON + b] = format!("{}", b);
        lines[BATTERY_AFT_BELOW_AGAIN + b] = "0".to_string();
    }
    lines[BATTERY_MOUNT_NUM + 3 * 4] = "10".to_string();
    let d = read(&lines).unwrap();
    // The later reading of the mounts above deck stands.
    assert_eq!(d.on_deck(0), Some(5));
    assert_eq!(d.on_deck(1), Some(4));
    assert_eq!(d.on_deck(2), Some(3));
    assert_eq!(d.on_deck(3), Some(2));
    // More mounts are placed than the fifth battery has.
    assert_eq!(d.on_deck(4), None);
}

#[test]
fn weapons_are_of_the_year_of_the_ship() {
    assert_eq!(design().weapons_year(), 1905);
}

/// A file in which every battery has room for the mounts that are placed.
fn sound_file() -> Vec<String> {
    let mut lines = file();
    for b in 0..BATTERIES {
        lines[BATTERY_MOUNT_NUM + 3 * b] = "12".to_string();
        lines[BATTERY_FORE_ABOVE_AGAIN + b] = "2".to_string();
        lines[BATTERY_FORE_BELOW_AGAIN + b] = "4".to_string();
        lines[BATTERY_AFT_ABOVE_AGAIN + b] = "1".to_string();
        lines[BATTERY_AFT_ON + b] = format!("{}", b);
        lines[BATTERY_AFT_BELOW_AGAIN + b] = "0".to_string();
    }
    lines
}

#[test]
fn design_is_placed_in_a_ship() {
    let s = read(&sound_file()).unwrap().ship().unwrap();
    assert_eq!(s.name, "Dreadnought");
    assert_eq!(s.country, "Great Britain");
    assert_eq!(s.kind, "text 3");
    assert_eq!(s.year, 1905);
    assert_eq!(s.trim, 50);
    assert_eq!(s.batteries.len(), 5);
    assert_eq!(s.torps.len(), 2);
    assert_eq!(s.asw.len(), 2);
    assert_eq!(s.hull.lwl, Num::Micro(520_000_000));
    assert_eq!(s.hull.b, Num::Micro(15_500_000));
    assert_eq!(s.hull.bb, Num::Micro(128_500_000));
    assert_eq!(s.hull.stern_type, "text 17");
    assert_eq!(s.hull.bow_type, "text 135");
    assert_eq!(s.hull.ram_len, Num::Micro(136_500_000));
    assert_eq!(s.armor.main.thick, Num::Micro(81_500_000));
    assert_eq!(s.armor.deck.kind, "text 210");
    assert_eq!(s.armor.ct_aft.thick, Num::Micro(211_500_000));
    assert_eq!(s.engine.vmax, Num::Micro(110_500_000));
    assert_eq!(s.engine.range, 112);
    assert_eq!(s.engine.shafts, 113);
    assert_eq!(s.engine.year, 129);
    assert_eq!(s.wgts.vital, 13);
    assert_eq!(s.wgts.void, 247);
    assert_eq!(s.mines.num, 187);
    assert_eq!(s.mines.reload, 188);
    assert_eq!(s.mines.unit_wgt, Num::Micro(189_500_000));
    assert_eq!(s.mines.desc, "text 190");
    assert_eq!(s.torps[0].num, 78);
    assert_eq!(s.torps[1].num, 79);
    assert_eq!(s.torps[0].diam, Num::Micro(80_500_000));
    assert_eq!(s.torps[1].diam, Num::Micro(182_500_000));
    assert_eq!(s.torps[1].desc, "text 186");
    assert_eq!(s.asw[0].kind, "text 197");
    assert_eq!(s.asw[1].unit_wgt, Num::Micro(196_500_000));
    assert_eq!(s.notes, vec!["First note", "", "Third note"]);
}

#[test]
fn hundredths_of_a_design_are_parts_in_the_ship() {
    let s = read(&sound_file()).unwrap().ship().unwrap();
    assert_eq!(s.hull.fc_len, Num::Micro(250_000));
    assert_eq!(s.hull.fd_len, Num::Micro(250_000));
    assert_eq!(s.hull.qd_len, Num::Micro(250_000));
    assert_eq!(s.engine.pct_coal, Num::Micro(250_000));
}

#[test]
fn batteries_of_a_design_in_the_ship() {
    let s = read(&sound_file()).unwrap().ship().unwrap();
    for b in 0..BATTERIES {
        let x = &s.batteries[b];
        assert_eq!(x.num as usize, BATTERY_NUM + 6 * b);
        assert_eq!(x.kind, format!("text {}", BATTERY_KIND + 6 * b));
        assert_eq!(x.mount, format!("text {}", BATTERY_MOUNT_KIND + 3 * b));
        assert_eq!(x.mount_num, 12);
        assert_eq!(x.shells as usize, shells_at(b));
        assert_eq!(x.year as usize, BATTERY_YEAR + b);
        // What no line holds: twelve mounts less those placed elsewhere.
        assert_eq!(x.groups[0].on as usize, 5 - b);
        assert_eq!(x.groups[0].above, 2);
        assert_eq!(x.groups[0].below, 4);
        assert_eq!(x.groups[1].above, 1);
        assert_eq!(x.groups[1].on as usize, b);
        assert_eq!(x.groups[1].below, 0);
        assert_eq!(x.groups[1].layout, format!("text {}", BATTERY_AFT_LAYOUT + b));
        assert!(!x.groups[1].lower_deck);
    }
    assert_eq!(s.batteries[0].shell_wgt, Num::Micro(1_250_500_000));
    assert_eq!(s.batteries[0].diam, Num::Micro(33_500_000));
    assert_eq!(s.batteries[4].armor_face, Num::Micro(105_500_000));
}

#[test]
fn weapons_of_a_design_are_of_the_year_of_the_ship() {
    let s = read(&sound_file()).unwrap().ship().unwrap();
    assert_eq!(s.torps[0].year, 1905);
    assert_eq!(s.torps[1].year, 1905);
    assert_eq!(s.mines.year, 1905);
    assert_eq!(s.asw[0].year, 1905);
    assert_eq!(s.asw[1].year, 1905);
}

#[test]
fn bulkheads_of_a_design() {
    let mut lines = sound_file();
    assert_eq!(
        read(&lines).unwrap().ship().unwrap().armor.bh_kind,
        sharpie::armor::BulkheadType::Strengthened
    );
    lines[ARMOR_BH_KIND] = "0".to_string();
    assert_eq!(
        read(&lines).unwrap().ship().unwrap().armor.bh_kind,
        sharpie::armor::BulkheadType::Additional
    );
    lines[ARMOR_BH_KIND] = "1".to_string();
    assert_eq!(
        read(&lines).unwrap().ship().unwrap().armor.bh_kind,
        sharpie::armor::BulkheadType::Strengthened
    );
}

#[test]
fn design_with_more_mounts_than_a_battery_has_is_no_ship() {
    assert!(design().ship().is_none());
    let mut lines = sound_file();
    lines[BATTERY_MOUNT_NUM + 3 * 4] = "10".to_string();
    assert!(read(&lines).unwrap().ship().is_none());
    lines[BATTERY_MOUNT_NUM + 3 * 4] = "11".to_string();
    assert_eq!(read(&lines).unwrap().ship().unwrap().batteries[4].groups[0].on, 0);
}

#[test]
fn sets_of_the_machinery_in_the_ship() {
    // The file names coal alone.
    let s = read(&sound_file()).unwrap().ship().unwrap();
    assert!(s.engine.fuels.coal);
    assert!(!s.engine.fuels.oil && !s.engine.fuels.diesel);
    assert!(!s.engine.fuels.gasoline && !s.engine.fuels.battery);
    assert_eq!(s.engine.boilers, sharpie::engine::BoilerSet::default());
    assert_eq!(s.engine.drives, sharpie::engine::DriveSet::default());
    let mut lines = sound_file();
    lines[FUEL_COAL] = "False".to_string();
    lines[FUEL_OIL] = "True".to_string();
    lines[sharpie::layout::FUEL_BATTERY] = "True".to_string();
    lines[sharpie::layout::BOILER_TURBINE] = "True".to_string();
    lines[sharpie::layout::DRIVE_GEARED] = "True".to_string();
    lines[DRIVE_HYDRAULIC] = "True".to_string();
    let s = read(&lines).unwrap().ship().unwrap();
    assert_eq!(s.engine.fuels.names(), "Oil | Battery");
    assert_eq!(s.engine.boilers.names(), "Turbine");
    assert_eq!(s.engine.drives.names(), "Geared | Hydraulic");
}

#[test]
fn what_no_line_holds_is_as_in_a_ship_without_parts() {
    let s = read(&sound_file()).unwrap().ship().unwrap();
    let bare = sharpie::ship::Ship::default();
    assert_eq!(s.hull.d, Num::Micro(0));
    assert_eq!(s.hull.wp, Num::Micro(0));
    assert_eq!(s.hull.ws, Num::Micro(0));
    assert_eq!(s.hull.freeboard_desc, "");
    assert_eq!(s.hull.units, bare.hull.units);
    assert_eq!(s.armor.main.wgt, Num::Micro(0));
    assert_eq!(s.armor.wgt, Num::Micro(0));
    assert_eq!(s.engine.hp_max, Num::Micro(0));
    assert_eq!(s.engine.bunker, Num::Micro(0));
    assert!(!s.engine.reciprocating);
    assert_eq!(s.engine.fuel, "");
    assert_eq!(s.mines.wgt, Num::Micro(0));
    for b in 0..BATTERIES {
        let x = &s.batteries[b];
        assert_eq!(x.mount_kind, bare.batteries[b].mount_kind);
        assert_eq!(x.gun_wgt, Num::Micro(0));
        assert_eq!(x.broadside_wgt, Num::Micro(0));
        assert_eq!(x.groups[0].distribution, bare.batteries[b].groups[0].distribution);
        assert_eq!(x.groups[1].distribution, bare.batteries[b].groups[1].distribution);
        assert!(!x.groups[0].two_mounts_up && !x.groups[0].lower_deck);
    }
    for i in 0..2 {
        assert_eq!(s.torps[i].mount_kind, bare.torps[i].mount_kind);
        assert_eq!(s.torps[i].wgt, Num::Micro(0));
        assert_eq!(s.torps[i].space, Num::Micro(0));
        assert_eq!(s.asw[i].wgt, Num::Micro(0));
        assert_eq!(s.asw[i].desc, "");
    }
    assert_eq!(s.crew_max(), 0);
}
