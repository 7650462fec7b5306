use sharpie::armor::BulkheadType;
use sharpie::num::Num;
use sharpie::sea::SeaType;
use sharpie::ship::Ship;
use sharpie::warnings::DesignFailure;
use sharpie::weapons::{Battery, GunDistributionType, MountType, TorpedoMountType};

fn n(x: f64) -> Num {
    Num::Micro((x * 1e6).round() as i64)
}

/// A battleship of 12,000 tons laid down in 1895.
fn battleship() -> Ship {
    let mut s = Ship::default();
    s.name = "Majestic".to_string();
    s.country = "Great Britain".to_string();
    s.kind = "Battleship".to_string();
    s.year = 1895;
    s.trim = 50;

    s.hull.d = n(12000.0);
    s.hull.lwl = n(400.0);
    s.hull.b = n(70.0);
    s.hull.bb = n(70.0);
    s.hull.t = n(25.0);
    s.hull.cb = n(0.6);
    s.hull.wp = n(20160.0);
    s.hull.ws = n(35000.0);
    s.hull.len2beam = n(5.714286);
    s.hull.freeboard = n(18.0);
    s.hull.freeboard_dist = n(17.5);
    s.hull.free_cap_deck = n(17.5);
    s.hull.free_cap_broad = n(12.0);
    s.hull.fc_len = n(0.2);
    s.hull.fd_len = n(0.3);

    s.armor.main.thick = n(9.0);
    s.armor.main.len = n(260.0);
    s.armor.main.hgt = n(8.0);
    s.armor.main.wgt = n(900.0);
    s.armor.main.wgt_d = n(950.0);
    s.armor.end.thick = n(4.0);
    s.armor.end.len = n(140.0);
    s.armor.end.hgt = n(8.0);
    s.armor.end.wgt = n(200.0);
    s.armor.end.wgt_d = n(210.0);
    s.armor.upper.thick = n(6.0);
    s.armor.upper.len = n(200.0);
    s.armor.upper.hgt = n(8.0);
    s.armor.upper.wgt = n(400.0);
    s.armor.upper.wgt_d = n(420.0);
    s.armor.bulkhead.thick = n(1.5);
    s.armor.bulkhead.len = n(250.0);
    s.armor.bulkhead.hgt = n(20.0);
    s.armor.bulkhead.wgt = n(300.0);
    s.armor.bulkhead.wgt_d = n(300.0);
    s.armor.deck.fc = n(1.0);
    s.armor.deck.md = n(2.5);
    s.armor.deck.qd = n(1.0);
    s.armor.deck.wgt = n(800.0);
    s.armor.ct_fwd.thick = n(10.0);
    s.armor.ct_fwd.wgt = n(60.0);
    s.armor.bh_kind = BulkheadType::Strengthened;
    s.armor.bh_beam = n(60.0);
    s.armor.wgt = n(2660.0);

    s.engine.vmax = n(18.0);
    s.engine.year = 1893;
    s.engine.shafts = 2;
    s.engine.reciprocating = true;
    s.engine.hp_max = n(14000.0);
    s.engine.d_engine = n(2800.0);
    s.engine.rf_max = n(60.0);
    s.engine.rw_max = n(40.0);
    s.engine.bunker = n(700.0);
    s.engine.bunker_max = n(1300.0);

    let main = &mut s.batteries[0];
    main.diam = n(12.0);
    main.mount_kind = MountType::ClosedBarbette;
    main.mount_num = 2;
    main.armor_face = n(10.0);
    main.gun_wgt = n(200.0);
    main.mount_wgt = n(350.0);
    main.mag_wgt = n(250.0);
    main.armor_wgt = n(450.0);
    main.broadside_wgt = n(3400.0);
    main.concentration = n(0.6);
    main.super_factor = n(1.0);
    main.wgt_adj = n(1.0);
    main.groups[0].on = 1;
    main.groups[0].distribution = GunDistributionType::CenterlineEndsFD;
    main.groups[0].position = n(0.2);
    main.groups[1].on = 1;
    main.groups[1].distribution = GunDistributionType::CenterlineEndsAD;
    main.groups[1].position = n(0.8);

    let sec = &mut s.batteries[1];
    sec.diam = n(6.0);
    sec.mount_kind = MountType::Casemate;
    sec.mount_num = 12;
    sec.armor_face = n(6.0);
    sec.gun_wgt = n(90.0);
    sec.mount_wgt = n(60.0);
    sec.mag_wgt = n(120.0);
    sec.armor_wgt = n(150.0);
    sec.broadside_wgt = n(600.0);
    sec.concentration = n(0.1);
    sec.super_factor = n(1.0);
    sec.wgt_adj = n(0.5);
    sec.groups[0].below = 12;
    sec.groups[0].distribution = GunDistributionType::SidesEven;
    sec.groups[0].position = n(0.5);

    for b in s.batteries.iter_mut().skip(2) {
        b.mount_kind = MountType::Deck;
    }

    s.torps[0].num = 4;
    s.torps[0].mounts = 4;
    s.torps[0].mount_kind = TorpedoMountType::SubmergedSideTubes;
    s.torps[0].wgt = n(20.0);
    s.torps[0].wgt_weaps = n(6.0);
    s.torps[0].space = n(1568.0);

    s.wgts.vital = 50;
    s.wgts.hull = 100;
    s.wgts.on = 20;
    s.wgts.above = 10;
    s.wgts.void = 0;
    dress_battleship(&mut s);
    s
}

/// What the report of the battleship holds beside her figures.
fn dress_battleship(s: &mut Ship) {
    let h = &mut s.hull;
    h.loa = n(412.5);
    h.t_max = n(26.25);
    h.cb_max = n(0.612);
    h.vn = n(20.0);
    h.ad_len = n(0.35);
    h.qd_len = n(0.15);
    h.fc_fwd = n(22.0);
    h.fc_aft = n(20.0);
    h.fd_fwd = n(18.0);
    h.fd_aft = n(18.0);
    h.ad_fwd = n(18.0);
    h.ad_aft = n(18.0);
    h.qd_fwd = n(10.0);
    h.qd_aft = n(10.0);
    h.bow_angle = n(-5.0);
    h.stern_overhang = n(2.5);
    h.wet_fwd = true;
    h.freeboard_desc = "raised forecastle, low quarterdeck".to_string();
    h.bow_type = "a ram bow".to_string();
    h.stern_type = "a round stern".to_string();
    h.cs = n(0.42);
    h.cm = n(0.98);
    h.cp = n(0.612245);
    h.cwp = n(0.72);
    h.ts = n(24.5);
    h.stem_len = n(12.5);
    h.ram = true;
    h.ram_len = n(8.0);
    h.leff = n(392.0);

    let e = &mut s.engine;
    e.vcruise = n(10.0);
    e.range = 4700;
    e.pct_coal = n(1.0);
    e.pw_max = n(0.4);
    e.fuel = "Coal fired boilers".to_string();
    e.boiler = "complex reciprocating steam engines".to_string();
    e.drive = "Direct drive".to_string();
    e.hp_type = "ihp".to_string();
    e.rf_cruise = n(80.0);
    e.rw_cruise = n(20.0);
    e.pw_cruise = n(0.2);
    e.hp_cruise = n(2300.0);
    e.bunker_factor = n(1.35);
    e.num_engines = 2;
    e.fuels.coal = true;
    e.boilers.complex = true;
    e.drives.direct = true;

    s.armor.incline = n(0.0);
    s.armor.deck.kind = "Protected deck - single deck".to_string();

    let main = &mut s.batteries[0];
    main.num = 4;
    main.len = n(35.0);
    main.shell_wgt = n(850.0);
    main.shells = 80;
    main.year = 1895;
    main.armor_back = n(5.5);
    main.armor_barb = n(14.0);
    main.kind = "Breech loading".to_string();
    main.mount = "turret on barbette".to_string();
    main.groups[0].layout = "Twin".to_string();
    main.groups[0].place = "centreline, forward deck forward".to_string();
    main.groups[1].layout = "Twin".to_string();
    main.groups[1].place = "centreline, aft deck aft".to_string();

    let sec = &mut s.batteries[1];
    sec.num = 12;
    sec.len = n(40.0);
    sec.shell_wgt = n(100.0);
    sec.shells = 1200;
    sec.year = 1892;
    sec.free = n(14.5);
    sec.kind = "Quick firing".to_string();
    sec.mount = "casemate".to_string();
    sec.groups[0].layout = "Single".to_string();
    sec.groups[0].place = "sides, evenly spread".to_string();

    s.torps[0].diam = n(18.0);
    s.torps[0].len = n(16.5);
    s.torps[0].desc = "In 4 sets of submerged side tubes".to_string();
}

/// A gunboat of 900 tons laid down in 1870, loaded beyond her displacement.
fn gunboat() -> Ship {
    let mut s = Ship::default();
    s.name = "Wespe".to_string();
    s.year = 1870;
    s.trim = 30;

    s.hull.d = n(900.0);
    s.hull.lwl = n(200.0);
    s.hull.b = n(30.0);
    s.hull.bb = n(32.0);
    s.hull.t = n(8.0);
    s.hull.cb = n(0.65625);
    s.hull.wp = n(4600.0);
    s.hull.ws = n(7200.0);
    s.hull.len2beam = n(6.666667);
    s.hull.freeboard = n(9.0);
    s.hull.freeboard_dist = n(8.5);
    s.hull.free_cap_deck = n(8.5);
    s.hull.free_cap_broad = n(6.0);
    s.hull.fc_len = n(0.15);
    s.hull.fd_len = n(0.3);

    s.armor.main.thick = n(4.5);
    s.armor.main.len = n(130.0);
    s.armor.main.hgt = n(6.0);
    s.armor.main.wgt = n(110.0);
    s.armor.main.wgt_d = n(118.0);
    s.armor.bulkhead.thick = n(1.0);
    s.armor.bulkhead.len = n(100.0);
    s.armor.bulkhead.hgt = n(8.0);
    s.armor.bulkhead.wgt = n(25.0);
    s.armor.bulkhead.wgt_d = n(25.0);
    s.armor.deck.md = n(1.0);
    s.armor.deck.wgt = n(40.0);
    s.armor.bh_kind = BulkheadType::Additional;
    s.armor.bh_beam = n(26.0);
    s.armor.wgt = n(175.0);

    s.engine.vmax = n(11.0);
    s.engine.year = 1870;
    s.engine.shafts = 1;
    s.engine.reciprocating = true;
    s.engine.hp_max = n(1200.0);
    s.engine.d_engine = n(330.0);
    s.engine.rf_max = n(70.0);
    s.engine.rw_max = n(30.0);
    s.engine.bunker = n(60.0);
    s.engine.bunker_max = n(100.0);

    for b in s.batteries.iter_mut() {
        b.broad_and_below = true;
    }
    let main = &mut s.batteries[0];
    main.diam = n(7.0);
    main.mount_kind = MountType::Broadside;
    main.mount_num = 4;
    main.gun_wgt = n(26.0);
    main.mount_wgt = n(14.0);
    main.mag_wgt = n(30.0);
    main.broadside_wgt = n(230.0);
    main.concentration = n(0.8);
    main.super_factor = n(1.1);
    main.wgt_adj = n(1.0);
    main.groups[0].below = 4;
    main.groups[0].distribution = GunDistributionType::SidesEven;
    main.groups[0].position = n(0.5);
    main.groups[0].super_long = true;

    let sec = &mut s.batteries[1];
    sec.diam = n(2.5);
    sec.mount_kind = MountType::Broadside;
    sec.mount_num = 2;
    sec.gun_wgt = n(1.0);
    sec.mount_wgt = n(1.0);
    sec.mag_wgt = n(2.0);
    sec.broadside_wgt = n(6.0);
    sec.concentration = n(0.05);
    sec.super_factor = n(1.0);
    sec.wgt_adj = n(1.0);
    sec.groups[0].on = 2;
    sec.groups[0].distribution = GunDistributionType::SidesFD;
    sec.groups[0].position = n(0.3);

    s.torps[0].num = 2;
    s.torps[0].mounts = 2;
    s.torps[0].mount_kind = TorpedoMountType::DeckSideTubes;
    s.torps[0].wgt = n(3.0);
    s.torps[0].wgt_weaps = n(1.4);
    s.torps[0].space = n(60.0);

    s.mines.num = 10;
    s.mines.wgt = n(4.0);

    s.wgts.vital = 5;
    s.wgts.hull = 10;
    s.wgts.on = 4;
    s.wgts.above = 2;
    s.wgts.void = 3;
    dress_gunboat(&mut s);
    s
}

/// What the report of the gunboat holds beside her figures.
fn dress_gunboat(s: &mut Ship) {
    s.hull.loa = n(205.0);
    s.hull.t_max = n(8.4);
    s.hull.cb_max = n(0.66);
    s.hull.vn = n(14.14);
    s.hull.ad_len = n(0.4);
    s.hull.qd_len = n(0.15);
    s.hull.freeboard_desc = "a flush deck".to_string();
    s.hull.bow_type = "a straight bulbous bow".to_string();
    s.hull.stern_type = "small transom stern".to_string();
    s.engine.vcruise = n(8.0);
    s.engine.range = 1200;
    s.engine.pw_max = n(0.3);
    s.engine.fuel = "Coal fired boilers".to_string();
    s.engine.boiler = "simple reciprocating steam engines".to_string();
    s.engine.drive = "Direct drive".to_string();
    s.engine.hp_type = "ihp".to_string();
    s.armor.incline = n(-2.5);
    s.armor.deck.kind = "Armoured deck - single deck".to_string();

    let main = &mut s.batteries[0];
    main.num = 4;
    main.len = n(20.0);
    main.shell_wgt = n(115.0);
    main.shells = 60;
    main.year = 1868;
    main.free = n(6.0);
    main.kind = "Muzzle loading".to_string();
    main.mount = "broadside".to_string();
    main.groups[0].layout = "Single".to_string();
    main.groups[0].place = "sides, evenly spread".to_string();
    main.groups[0].lower_deck = true;

    let sec = &mut s.batteries[1];
    sec.num = 2;
    sec.len = n(25.0);
    sec.shell_wgt = n(6.0);
    sec.shells = 150;
    sec.year = 1870;
    sec.kind = "Breech loading".to_string();
    sec.mount = "broadside".to_string();
    sec.groups[0].layout = "Single".to_string();
    sec.groups[0].place = "sides, forward deck centre".to_string();

    s.torps[0].diam = n(14.0);
    s.torps[0].len = n(11.0);
    s.torps[0].desc = "In 2 sets of deck mounted side rotating tubes".to_string();
    s.mines.unit_wgt = n(500.0);
    s.mines.reload = 6;
    s.mines.wgt_weaps = n(2.232);
    s.mines.desc = "in Above water - Stern racks/rails".to_string();
    s.asw[1].num = 1;
    s.asw[1].unit_wgt = n(300.0);
    s.asw[1].wgt_weaps = n(0.134);
    s.asw[1].kind = "Depth Charges".to_string();
    s.asw[1].desc = "in Stern depth charge racks".to_string();
}


#[test]
fn battleship_wgt_guns() {
    assert_eq!(battleship().wgt_guns(), Num::Micro(290_000_000));
}

#[test]
fn battleship_wgt_gun_mounts() {
    assert_eq!(battleship().wgt_gun_mounts(), Num::Micro(410_000_000));
}

#[test]
fn battleship_wgt_gun_armor() {
    assert_eq!(battleship().wgt_gun_armor(), Num::Micro(600_000_000));
}

#[test]
fn battleship_wgt_mag() {
    assert_eq!(battleship().wgt_mag(), Num::Micro(370_000_000));
}

#[test]
fn battleship_wgt_broad() {
    assert_eq!(battleship().wgt_broad(), Num::Micro(4_000_000_000));
}

#[test]
fn battleship_wgt_borne() {
    assert_eq!(battleship().wgt_borne(), Num::Micro(490_000_000));
}

#[test]
fn battleship_gun_concentration() {
    assert_eq!(battleship().gun_concentration(), Num::Micro(700_000));
}

#[test]
fn battleship_gun_wtf() {
    assert_eq!(battleship().gun_wtf(), Num::Micro(1_150_000_000));
}

#[test]
fn battleship_gun_super_factor() {
    assert_eq!(battleship().gun_super_factor(), Num::Micro(884_615));
}

#[test]
fn battleship_wgt_weaps() {
    assert_eq!(battleship().wgt_weaps(), Num::Micro(20_000_000));
}

#[test]
fn battleship_wgt_armor() {
    assert_eq!(battleship().wgt_armor(), Num::Micro(3_260_000_000));
}

#[test]
fn battleship_wgt_misc() {
    assert_eq!(battleship().wgt_misc(), Num::Micro(180_000_000));
}

#[test]
fn battleship_deck_space() {
    assert_eq!(battleship().deck_space(), Num::Micro(0));
}

#[test]
fn battleship_hull_space() {
    assert_eq!(battleship().hull_space(), Num::Micro(3_733));
}

#[test]
fn battleship_wgt_bunker() {
    assert_eq!(battleship().wgt_bunker(), Num::Micro(700_000_000));
}

#[test]
fn battleship_wgt_load() {
    assert_eq!(battleship().wgt_load(), Num::Micro(1_310_000_000));
}

#[test]
fn battleship_d_lite() {
    assert_eq!(battleship().d_lite(), Num::Micro(10_690_000_000));
}

#[test]
fn battleship_d_std() {
    assert_eq!(battleship().d_std(), Num::Micro(11_300_000_000));
}

#[test]
fn battleship_d_max() {
    assert_eq!(battleship().d_max(), Num::Micro(13_040_000_000));
}

#[test]
fn battleship_d_factor() {
    assert_eq!(battleship().d_factor(), Num::Micro(1_181_102));
}

#[test]
fn battleship_stress_exponent() {
    assert_eq!(battleship().stress_exponent(), Num::Micro(0));
}

#[test]
fn battleship_wgt_engine() {
    assert_eq!(battleship().wgt_engine(), Num::Micro(1_400_000_000));
}

#[test]
fn battleship_wgt_hull() {
    assert_eq!(battleship().wgt_hull(), Num::Micro(5_130_000_000));
}

#[test]
fn battleship_wgt_hull_plus() {
    assert_eq!(battleship().wgt_hull_plus(), Num::Micro(5_340_000_000));
}

#[test]
fn battleship_wgt_struct() {
    assert_eq!(battleship().wgt_struct(), Num::Micro(182_672_064));
}

#[test]
fn battleship_room() {
    assert_eq!(battleship().room(), Num::Micro(720_419));
}

#[test]
fn battleship_hull_room() {
    assert_eq!(battleship().hull_room(), Num::Micro(840_488));
}

#[test]
fn battleship_deck_room() {
    assert_eq!(battleship().deck_room(), Num::Micro(1_172_774));
}

#[test]
fn battleship_vitalspace() {
    assert_eq!(battleship().vitalspace(), Num::Micro(22_674_150));
}

#[test]
fn battleship_vitalspace_length() {
    assert_eq!(battleship().vitalspace_length(), Num::Micro(218_536_880));
}

#[test]
fn battleship_cost_dollar() {
    assert_eq!(battleship().cost_dollar(), Num::Micro(3_927_000));
}

#[test]
fn battleship_cost_lb() {
    assert_eq!(battleship().cost_lb(), Num::Micro(981_750));
}

#[test]
fn battleship_stability() {
    assert_eq!(battleship().stability(), Num::Micro(1_277_659));
}

#[test]
fn battleship_stability_adj() {
    assert_eq!(battleship().stability_adj(), Num::Micro(1_277_659));
}

#[test]
fn battleship_metacenter() {
    assert_eq!(battleship().metacenter(), Num::Micro(4_554_453));
}

#[test]
fn battleship_roll_period() {
    assert_eq!(battleship().roll_period(), Num::Micro(13_776_195));
}

#[test]
fn battleship_super_factor_long() {
    assert_eq!(battleship().super_factor_long(), Num::Micro(646_528));
}

#[test]
fn battleship_seaboat() {
    assert_eq!(battleship().seaboat(), Num::Micro(1_943_758));
}

#[test]
fn battleship_steadiness() {
    assert_eq!(battleship().steadiness(), Num::Micro(97_187_900));
}

#[test]
fn battleship_seakeeping() {
    assert_eq!(battleship().seakeeping(), Num::Micro(1_943_758));
}

#[test]
fn battleship_str_cross() {
    assert_eq!(battleship().str_cross(), Num::Micro(1_152_028));
}

#[test]
fn battleship_str_long() {
    assert_eq!(battleship().str_long(), Num::Micro(3_669_940));
}

#[test]
fn battleship_str_comp() {
    assert_eq!(battleship().str_comp(), Num::Micro(1_293_547));
}

#[test]
fn battleship_flotation_base() {
    assert_eq!(battleship().flotation_base(), Num::Micro(11_040_000_000));
}

#[test]
fn battleship_flotation() {
    assert_eq!(battleship().flotation(), Num::Micro(17_321_723_051));
}

#[test]
fn battleship_damage_shell_size() {
    assert_eq!(battleship().damage_shell_size(), Num::Micro(12_000_000));
}

#[test]
fn battleship_damage_shell_num() {
    assert_eq!(battleship().damage_shell_num(), Num::Micro(20_048_290));
}

#[test]
fn battleship_damage_torp_num() {
    assert_eq!(battleship().damage_torp_num(), Num::Micro(2_728_893));
}

#[test]
fn battleship_recoil() {
    assert_eq!(battleship().recoil(), Num::Micro(567_273));
}

#[test]
fn gunboat_wgt_guns() {
    assert_eq!(gunboat().wgt_guns(), Num::Micro(27_000_000));
}

#[test]
fn gunboat_wgt_gun_mounts() {
    assert_eq!(gunboat().wgt_gun_mounts(), Num::Micro(15_000_000));
}

#[test]
fn gunboat_wgt_gun_armor() {
    assert_eq!(gunboat().wgt_gun_armor(), Num::Micro(0));
}

#[test]
fn gunboat_wgt_mag() {
    assert_eq!(gunboat().wgt_mag(), Num::Micro(32_000_000));
}

#[test]
fn gunboat_wgt_broad() {
    assert_eq!(gunboat().wgt_broad(), Num::Micro(236_000_000));
}

#[test]
fn gunboat_wgt_borne() {
    assert_eq!(gunboat().wgt_borne(), Num::Micro(54_000_000));
}

#[test]
fn gunboat_gun_concentration() {
    assert_eq!(gunboat().gun_concentration(), Num::Micro(850_000));
}

#[test]
fn gunboat_gun_wtf() {
    assert_eq!(gunboat().gun_wtf(), Num::Micro(46_000_000));
}

#[test]
fn gunboat_gun_super_factor() {
    assert_eq!(gunboat().gun_super_factor(), Num::Micro(1_095_238));
}

#[test]
fn gunboat_wgt_weaps() {
    assert_eq!(gunboat().wgt_weaps(), Num::Micro(7_000_000));
}

#[test]
fn gunboat_wgt_armor() {
    assert_eq!(gunboat().wgt_armor(), Num::Micro(175_000_000));
}

#[test]
fn gunboat_wgt_misc() {
    assert_eq!(gunboat().wgt_misc(), Num::Micro(24_000_000));
}

#[test]
fn gunboat_deck_space() {
    assert_eq!(gunboat().deck_space(), Num::Micro(13_043));
}

#[test]
fn gunboat_hull_space() {
    assert_eq!(gunboat().hull_space(), Num::Micro(0));
}

#[test]
fn gunboat_wgt_bunker() {
    assert_eq!(gunboat().wgt_bunker(), Num::Micro(60_000_000));
}

#[test]
fn gunboat_wgt_load() {
    assert_eq!(gunboat().wgt_load(), Num::Micro(110_000_000));
}

#[test]
fn gunboat_d_lite() {
    assert_eq!(gunboat().d_lite(), Num::Micro(790_000_000));
}

#[test]
fn gunboat_d_std() {
    assert_eq!(gunboat().d_std(), Num::Micro(840_000_000));
}

#[test]
fn gunboat_d_max() {
    assert_eq!(gunboat().d_max(), Num::Micro(980_000_000));
}

#[test]
fn gunboat_d_factor() {
    assert_eq!(gunboat().d_factor(), Num::Micro(936_524));
}

#[test]
fn gunboat_stress_exponent() {
    assert_eq!(gunboat().stress_exponent(), Num::Micro(820_000));
}

#[test]
fn gunboat_wgt_engine() {
    assert_eq!(gunboat().wgt_engine(), Num::Micro(156_359_610));
}

#[test]
fn gunboat_wgt_hull() {
    assert_eq!(gunboat().wgt_hull(), Num::Micro(385_640_390));
}

#[test]
fn gunboat_wgt_hull_plus() {
    assert_eq!(gunboat().wgt_hull_plus(), Num::Micro(373_640_390));
}

#[test]
fn gunboat_wgt_struct() {
    assert_eq!(gunboat().wgt_struct(), Num::Micro(58_940_455));
}

#[test]
fn gunboat_room() {
    assert_eq!(gunboat().room(), Num::Micro(1_039_809));
}

#[test]
fn gunboat_hull_room() {
    assert_eq!(gunboat().hull_room(), Num::Micro(1_199_779));
}

#[test]
fn gunboat_deck_room() {
    assert_eq!(gunboat().deck_room(), Num::Micro(907_466));
}

#[test]
fn gunboat_vitalspace() {
    assert_eq!(gunboat().vitalspace(), Num::Micro(10_997_200));
}

#[test]
fn gunboat_vitalspace_length() {
    assert_eq!(gunboat().vitalspace_length(), Num::Micro(155_981_270));
}

#[test]
fn gunboat_cost_dollar() {
    assert_eq!(gunboat().cost_dollar(), Num::Micro(379_601));
}

#[test]
fn gunboat_cost_lb() {
    assert_eq!(gunboat().cost_lb(), Num::Micro(94_900));
}

#[test]
fn gunboat_stability() {
    assert_eq!(gunboat().stability(), Num::Micro(1_373_364));
}

#[test]
fn gunboat_stability_adj() {
    assert_eq!(gunboat().stability_adj(), Num::Micro(1_556_478));
}

#[test]
fn gunboat_metacenter() {
    assert_eq!(gunboat().metacenter(), Num::Micro(1_735_970));
}

#[test]
fn gunboat_roll_period() {
    assert_eq!(gunboat().roll_period(), Num::Micro(10_200_658));
}

#[test]
fn gunboat_super_factor_long() {
    assert_eq!(gunboat().super_factor_long(), Num::Micro(1_151_351));
}

#[test]
fn gunboat_seaboat() {
    assert_eq!(gunboat().seaboat(), Num::Micro(1_156_494));
}

#[test]
fn gunboat_steadiness() {
    assert_eq!(gunboat().steadiness(), Num::Micro(34_694_820));
}

#[test]
fn gunboat_seakeeping() {
    assert_eq!(gunboat().seakeeping(), Num::Micro(802_487));
}

#[test]
fn gunboat_str_cross() {
    assert_eq!(gunboat().str_cross(), Num::Micro(646_567));
}

#[test]
fn gunboat_str_long() {
    assert_eq!(gunboat().str_long(), Num::Micro(1_063_457));
}

#[test]
fn gunboat_str_comp() {
    assert_eq!(gunboat().str_comp(), Num::Micro(679_554));
}

#[test]
fn gunboat_flotation_base() {
    assert_eq!(gunboat().flotation_base(), Num::Micro(844_285_714));
}

#[test]
fn gunboat_flotation() {
    assert_eq!(gunboat().flotation(), Num::Micro(463_421_088));
}

#[test]
fn gunboat_damage_shell_size() {
    assert_eq!(gunboat().damage_shell_size(), Num::Micro(7_000_000));
}

#[test]
fn gunboat_damage_shell_num() {
    assert_eq!(gunboat().damage_shell_num(), Num::Micro(3_860_234));
}

#[test]
fn gunboat_damage_torp_num() {
    assert_eq!(gunboat().damage_torp_num(), Num::Micro(851_245));
}

#[test]
fn gunboat_recoil() {
    assert_eq!(gunboat().recoil(), Num::Micro(255_058));
}


#[test]
fn battleship_crew() {
    assert_eq!(battleship().crew_max(), 745);
    assert_eq!(battleship().crew_min(), 573);
}

#[test]
fn gunboat_crew() {
    assert_eq!(gunboat().crew_max(), 106);
    assert_eq!(gunboat().crew_min(), 81);
}

#[test]
fn battleship_room_in_words() {
    assert_eq!(battleship().deck_room_quality(), "Adequate");
    assert_eq!(battleship().hull_room_quality(), "Adequate");
}

#[test]
fn gunboat_room_in_words() {
    assert_eq!(gunboat().deck_room_quality(), "Adequate");
    assert_eq!(gunboat().hull_room_quality(), "Cramped");
}

#[test]
fn deck_room_quality_bands() {
    // Room on deck goes by the freeboard: 1.172774 at 17.5 ft.
    let mut s = battleship();
    s.hull.freeboard_dist = n(18.0);
    assert_eq!(s.deck_room(), Num::Micro(1_206_282));
    assert_eq!(s.deck_room_quality(), "Excellent");
    s.hull.freeboard_dist = n(13.5);
    assert_eq!(s.deck_room(), Num::Micro(904_712));
    assert_eq!(s.deck_room_quality(), "Adequate");
    s.hull.freeboard_dist = n(13.0);
    assert_eq!(s.deck_room_quality(), "Cramped");
    s.hull.freeboard_dist = n(7.5);
    assert_eq!(s.deck_room(), Num::Micro(502_617));
    assert_eq!(s.deck_room_quality(), "Cramped");
    s.hull.freeboard_dist = n(7.0);
    assert_eq!(s.deck_room_quality(), "Poor");
    s.hull.freeboard_dist = Num::Undefined;
    assert_eq!(s.deck_room_quality(), "Poor");
    // No crew to share the deck: the room is undefined.
    s.hull.d = n(0.0);
    assert_eq!(s.deck_room(), Num::Undefined);
    assert_eq!(s.deck_room_quality(), "Poor");
}

#[test]
fn hull_room_quality_bands() {
    // Room in the hull goes by the beam between the bulkheads: the room
    // before it is 0.720419.
    let mut s = battleship();
    s.armor.bulkhead.wgt = n(0.1);
    assert_eq!(s.hull_room(), Num::Micro(720_419));
    assert_eq!(s.hull_room_quality(), "Excellent");
    s.armor.bulkhead.wgt = n(300.0);
    s.armor.bh_beam = n(70.0);
    assert_eq!(s.hull_room_quality(), "Excellent");
    s.armor.bh_beam = n(60.0);
    assert_eq!(s.hull_room_quality(), "Adequate");
    s.armor.bh_beam = n(45.0);
    assert_eq!(s.hull_room_quality(), "Cramped");
    s.armor.bh_beam = n(25.3);
    assert_eq!(s.hull_room_quality(), "Cramped");
    s.armor.bh_beam = n(25.0);
    assert_eq!(s.hull_room_quality(), "Extremely poor");
    s.armor.bh_beam = n(0.0);
    assert_eq!(s.hull_room(), Num::Undefined);
    assert_eq!(s.hull_room_quality(), "Extremely poor");
}

#[test]
fn battleship_at_sea() {
    let s = battleship();
    assert!(s.is_steady());
    assert!(!s.is_unsteady());
    assert_eq!(s.type_sea(), SeaType::FineSea);
    assert_eq!(
        s.seakeeping_desc(),
        vec![
            "Ship has slow easy roll, a good steady, gun platform".to_string(),
            "Excellent seaboat, comfortable, can fire her guns in the heaviest weather".to_string(),
        ]
    );
    assert!(!s.tender_warn());
    assert!(!s.capsize_warn());
    assert!(!s.hull_strained());
    assert!(!s.cap_calc_broadside());
}

#[test]
fn gunboat_at_sea() {
    let s = gunboat();
    assert!(!s.is_steady());
    assert!(!s.is_unsteady());
    assert_eq!(s.type_sea(), SeaType::PoorSea);
    assert_eq!(
        s.seakeeping_desc(),
        vec!["Poor seaboat, wet and uncomfortable, reduced performance in heavy weather".to_string()]
    );
    assert!(!s.tender_warn());
    assert!(!s.capsize_warn());
    // A composite strength of 0.704229 at 11 knots.
    assert!(s.hull_strained());
    assert!(s.cap_calc_broadside());
}

#[test]
fn unsteady_ship_at_sea() {
    let mut s = gunboat();
    s.trim = 20;
    assert_eq!(s.steadiness(), Num::Micro(23_129_880));
    assert!(s.is_unsteady());
    assert_eq!(
        s.seakeeping_desc(),
        vec![
            "Ship has quick, lively roll, not a steady gun platform".to_string(),
            "Caution: Lacks seaworthiness - very limited seakeeping ability".to_string(),
        ]
    );
}

#[test]
fn unarmed_ship_in_the_best_band() {
    let mut s = battleship();
    for b in s.batteries.iter_mut() {
        b.gun_wgt = n(0.0);
    }
    assert_eq!(s.type_sea(), SeaType::FineSea);
    assert_eq!(
        s.seakeeping_desc()[1],
        "Excellent seaboat, comfortable, rides out heavy weather easily"
    );
}

#[test]
fn default_ship_at_sea() {
    // Nothing of the default ship is defined; her seaboat figure is the
    // ceiling of two.
    let s = Ship::default();
    assert_eq!(s.stability(), Num::Undefined);
    assert_eq!(s.seaboat(), n(2.0));
    assert_eq!(s.steadiness(), n(100.0));
    assert_eq!(s.seakeeping(), n(2.0));
    assert_eq!(s.type_sea(), SeaType::FineSea);
    assert_eq!(s.flotation(), n(0.0));
    assert_eq!(s.d_factor(), n(10.0));
    assert_eq!(s.str_comp(), Num::Undefined);
    assert_eq!(s.roll_period(), Num::Undefined);
    assert!(!s.tender_warn());
    assert!(!s.capsize_warn());
    assert!(!s.cap_calc_broadside());
}

#[test]
fn ship_without_batteries_has_all_below() {
    let mut s = Ship::default();
    s.batteries.clear();
    assert!(s.cap_calc_broadside());
    s.batteries.push(sharpie::weapons::Battery::default());
    assert!(!s.cap_calc_broadside());
    s.batteries[0].broad_and_below = true;
    assert!(s.cap_calc_broadside());
}

#[test]
fn tender_and_capsizing() {
    // A heavier deck lowers the stability, 1.277659 as she stands.
    let mut s = battleship();
    s.armor.deck.wgt = n(9000.0);
    assert_eq!(s.stability_adj(), Num::Micro(996_697));
    assert!(!s.tender_warn());
    s.armor.deck.wgt = n(10000.0);
    assert_eq!(s.stability_adj(), Num::Micro(973_726));
    assert!(s.tender_warn());
    assert!(!s.capsize_warn());
    s.armor.deck.wgt = n(70000.0);
    assert_eq!(s.metacenter(), Num::Micro(22_969));
    assert!(s.tender_warn());
    assert!(!s.capsize_warn());
    s.armor.deck.wgt = n(80000.0);
    assert_eq!(s.stability_adj(), Num::Micro(475_731));
    assert_eq!(s.metacenter(), Num::Micro(-142_134));
    assert!(s.tender_warn());
    assert!(s.capsize_warn());
    assert_eq!(s.roll_period(), Num::Undefined);
}

#[test]
fn sound_design_has_no_failures() {
    assert_eq!(battleship().design_failures(), vec![]);
    assert_eq!(gunboat().design_failures(), vec![]);
    let s = battleship();
    assert!(!s.displacement_impossible());
    assert!(!s.guns_overweight());
    assert!(!s.armor_overweight());
    assert!(!s.load_overweight());
}

#[test]
fn each_failure_by_itself() {
    let mut s = battleship();
    s.hull.cb = n(1.000001);
    assert_eq!(s.design_failures(), vec![DesignFailure::Displacement]);
    s.hull.cb = n(0.0);
    assert_eq!(s.design_failures(), vec![DesignFailure::Displacement]);
    s.hull.cb = n(1.0);
    assert_eq!(s.design_failures(), vec![]);
    s.hull.cb = Num::Undefined;
    assert_eq!(s.design_failures(), vec![]);

    // 290 tons of guns against a quarter of 12,000 tons.
    let mut s = battleship();
    s.batteries[2].gun_wgt = n(2710.0);
    assert_eq!(s.wgt_guns(), n(3000.0));
    assert!(!s.guns_overweight());
    s.batteries[2].gun_wgt = n(2710.000001);
    assert!(s.guns_overweight());
    assert!(s.design_failures().contains(&DesignFailure::GunWeight));

    let mut s = battleship();
    s.armor.wgt = n(11400.0);
    assert!(!s.armor_overweight());
    s.armor.wgt = n(11400.000001);
    assert!(s.armor_overweight());
    assert!(s.design_failures().contains(&DesignFailure::ArmorWeight));
    s.armor.wgt = n(20000.0);
    assert!(s.armor_overweight());

    let mut s = battleship();
    s.armor.deck.wgt = n(80000.0);
    assert_eq!(s.design_failures(), vec![DesignFailure::Capsize]);
}

#[test]
fn failures_come_in_order() {
    let mut s = gunboat();
    s.hull.cb = n(1.2);
    s.batteries[0].gun_wgt = n(226.0);
    s.armor.wgt = n(1000.0);
    s.armor.deck.wgt = n(60000.0);
    assert_eq!(
        s.design_failures(),
        vec![
            DesignFailure::Displacement,
            DesignFailure::GunWeight,
            DesignFailure::ArmorWeight,
            DesignFailure::LoadWeight,
            DesignFailure::Capsize,
        ]
    );
    assert!(s.str_comp().lt(n(0.5)));
}

#[test]
fn cautions_on_the_machinery() {
    let mut s = battleship();
    assert_eq!(s.power_per_shaft(), n(7000.0));
    assert!(!s.engines_overpowered());
    assert!(!s.shafts_overpowered());
    assert!(!s.machinery_delicate());

    s.engine.hp_max = n(40000.000002);
    assert!(s.engines_overpowered());
    assert!(!s.shafts_overpowered());
    s.engine.hp_max = n(40000.0);
    assert!(!s.engines_overpowered());

    s.engine.hp_max = n(160000.0);
    assert!(s.engines_overpowered());
    assert!(!s.shafts_overpowered());
    s.engine.reciprocating = false;
    assert!(!s.engines_overpowered());
    assert!(s.shafts_overpowered());
    s.engine.vmax = n(0.0);
    assert!(!s.shafts_overpowered());
    s.engine.vmax = n(18.0);
    s.engine.shafts = 0;
    assert_eq!(s.power_per_shaft(), Num::Undefined);
    assert!(!s.shafts_overpowered());
}

#[test]
fn delicate_machinery() {
    // At a displacement factor of 0.237717 to the power of 0.82 the machinery
    // weighs less than a fifth of the engine's own figure.
    let mut s = gunboat();
    assert!(!s.machinery_delicate());
    s.armor.wgt = n(3000.0);
    assert_eq!(s.d_factor(), Num::Micro(237_717));
    assert_eq!(s.wgt_engine(), Num::Micro(50_798_055));
    assert!(s.machinery_delicate());
    s.engine.vmax = n(0.0);
    assert!(!s.machinery_delicate());
}

#[test]
fn belt_against_the_vitals() {
    let mut s = battleship();
    // 260 ft of 400 against a room of 0.840488
    assert_eq!(s.armor.belt_coverage(s.hull.lwl), n(0.65));
    assert!(s.belt_short());
    s.armor.main.len = n(340.0);
    assert!(!s.belt_short());
    s.armor.main.len = n(260.0);
    s.armor.main.thick = n(0.0);
    assert!(!s.belt_short());
}

#[test]
fn stress_exponent_by_displacement() {
    let mut s = gunboat();
    assert_eq!(s.stress_exponent(), n(0.82));
    s.hull.d = n(599.0);
    assert_eq!(s.stress_exponent(), n(0.88));
    s.hull.d = n(600.0);
    assert_eq!(s.stress_exponent(), n(0.88));
    s.hull.d = n(700.0);
    assert_eq!(s.stress_exponent(), n(0.86));
    // A lightly loaded ship is not lightened.
    s.armor.wgt = n(0.0);
    s.engine.d_engine = n(100.0);
    assert!(s.d_factor().ge(n(1.0)));
    assert_eq!(s.stress_exponent(), n(0.0));
    assert_eq!(s.wgt_engine(), n(50.0));
    // Nor is one of 5,000 tons.
    let mut s = gunboat();
    s.hull.d = n(4999.0);
    s.armor.wgt = n(9000.0);
    assert_eq!(s.stress_exponent(), Num::Micro(200));
    s.hull.d = n(5000.0);
    assert_eq!(s.stress_exponent(), n(0.0));
}

#[test]
fn damage_shell_size_without_a_main_battery() {
    let mut s = battleship();
    assert_eq!(s.damage_shell_size(), n(12.0));
    s.batteries[0].diam = n(0.0);
    assert_eq!(s.damage_shell_size(), n(6.0));
    s.batteries[0].diam = Num::Undefined;
    assert_eq!(s.damage_shell_size(), n(6.0));
}

#[test]
fn super_factor_long_by_the_groups() {
    let mut s = battleship();
    // Both groups have mounts, far apart: twice the super factor less one.
    assert_eq!(s.super_factor_long(), Num::Micro(646_528));
    // Within a fifth of the length: 0.8 of the super factor.
    s.batteries[0].groups[1].position = n(0.399999);
    assert_eq!(s.super_factor_long(), Num::Micro(594_806));
    s.batteries[0].groups[1].position = n(0.4);
    assert_eq!(s.super_factor_long(), Num::Micro(646_528));
    // One group only, and its placement weighs on the ends.
    s.batteries[0].groups[1].on = 0;
    assert_eq!(s.super_factor_long(), Num::Micro(646_528));
    s.batteries[0].groups[0].super_long = true;
    assert_eq!(s.super_factor_long(), Num::Micro(594_806));
    // Spread evenly, with three mounts: the room is raised by the super
    // factor.
    s.batteries[0].groups[1].distribution = GunDistributionType::CenterlineEven;
    s.batteries[0].mount_num = 3;
    assert_eq!(s.super_factor_long(), Num::Micro(526_174));
    s.batteries[0].mount_num = 5;
    assert_eq!(s.super_factor_long(), Num::Micro(594_806));
}

#[test]
fn bulkheads_in_the_structure() {
    let mut s = battleship();
    assert_eq!(s.armor.bulkhead_strength(), n(300.0));
    s.armor.bh_kind = BulkheadType::Additional;
    assert_eq!(s.armor.bulkhead_strength(), n(0.0));
    assert_eq!(s.wgt_struct(), Num::Micro(172_955_465));
}

#[test]
fn free_cap_by_the_batteries() {
    let s = battleship();
    assert_eq!(s.hull.free_cap(true), n(12.0));
    assert_eq!(s.hull.free_cap(false), n(17.5));
}

#[test]
fn flotation_in_a_year_without_survivability() {
    let mut s = battleship();
    s.year = 1951;
    assert_eq!(s.flotation(), n(0.0));
    assert_eq!(s.damage_shell_num(), Num::Undefined);
    s.year = 1800;
    assert_eq!(s.flotation(), n(0.0));
}

#[test]
fn cost_rises_after_1912() {
    let mut s = battleship();
    s.year = 1912;
    assert_eq!(s.cost_dollar(), Num::Micro(3_927_000));
    s.year = 1920;
    // 3.927 * 2.363636
    assert_eq!(s.cost_dollar(), Num::Micro(9_281_998));
    assert_eq!(s.cost_lb(), Num::Micro(2_320_499));
}

#[test]
fn percent_of_the_displacement() {
    let s = battleship();
    assert_eq!(s.percent_of_displacement(n(3000.0)), n(25.0));
    assert_eq!(s.percent_of_displacement(s.wgt_engine()), Num::Micro(11_666_600));
    assert_eq!(s.percent_of_displacement(n(-600.0)), n(-5.0));
    let mut s = Ship::default();
    assert_eq!(s.percent_of_displacement(n(3000.0)), n(0.0));
    s.hull.d = n(-1.0);
    assert_eq!(s.percent_of_displacement(n(3000.0)), n(0.0));
    s.hull.d = Num::Undefined;
    assert_eq!(s.percent_of_displacement(n(3000.0)), n(0.0));
}

#[test]
fn failure_lines_of_a_bad_design() {
    assert_eq!(battleship().failure_lines(), Vec::<String>::new());
    let mut s = gunboat();
    s.hull.cb = n(1.2);
    s.armor.deck.wgt = n(60000.0);
    assert_eq!(
        s.failure_lines(),
        vec![
            "DESIGN FAILURE: Displacement impossible with given dimensions".to_string(),
            "DESIGN FAILURE: Ship will capsize".to_string(),
        ]
    );
    s.armor.wgt = n(1000.0);
    assert_eq!(
        s.failure_lines(),
        vec![
            "DESIGN FAILURE: Displacement impossible with given dimensions".to_string(),
            "DESIGN FAILURE: Armour weight too much for hull".to_string(),
            "DESIGN FAILURE: Overall load weight too much for hull".to_string(),
            "DESIGN FAILURE: Ship will capsize".to_string(),
        ]
    );
}

#[test]
fn machinery_cautions_of_a_sound_ship() {
    assert_eq!(battleship().machinery_cautions(), Vec::<String>::new());
}

#[test]
fn machinery_cautions_each() {
    let mut s = battleship();
    s.engine.vmax = n(0.0);
    assert_eq!(s.machinery_cautions(), vec!["    Immobile floating battery".to_string()]);

    let mut s = battleship();
    s.engine.hp_max = n(50000.0);
    assert_eq!(
        s.machinery_cautions(),
        vec!["    Caution: Too much power for reciprocating engines.".to_string()]
    );
    s.engine.reciprocating = false;
    assert_eq!(s.machinery_cautions(), Vec::<String>::new());
    s.engine.hp_max = n(160000.0);
    assert_eq!(
        s.machinery_cautions(),
        vec!["    Caution: Too much power for number of propellor shafts.".to_string()]
    );

    let mut s = gunboat();
    s.armor.wgt = n(3000.0);
    s.engine.hp_max = n(21000.0);
    assert_eq!(
        s.machinery_cautions(),
        vec![
            "    Caution: Too much power for reciprocating engines.".to_string(),
            "    Caution: Delicate, lightweight machinery.".to_string(),
        ]
    );
}

#[test]
fn comments_on_the_battleship() {
    assert_eq!(
        battleship().comments(),
        vec![
            "    Adequate machinery, storage, compartmentation space".to_string(),
            "    Adequate accommodation and workspace room".to_string(),
            "    Ship has slow easy roll, a good steady, gun platform".to_string(),
            "    Excellent seaboat, comfortable, can fire her guns in the heaviest weather".to_string(),
        ]
    );
}

#[test]
fn comments_on_the_gunboat() {
    assert_eq!(
        gunboat().comments(),
        vec![
            "Caution: Hull subject to strain in open-sea".to_string(),
            "    Cramped machinery, storage, compartmentation space".to_string(),
            "    Adequate accommodation and workspace room".to_string(),
            "    Poor seaboat, wet and uncomfortable, reduced performance in heavy weather".to_string(),
        ]
    );
}

#[test]
fn comments_on_a_tender_ship() {
    let mut s = battleship();
    s.armor.deck.wgt = n(10000.0);
    assert_eq!(s.comments()[0], "Caution: Poor stability - excessive risk of capsizing");
    assert_eq!(s.comments().len(), 5);
    // A ship that will capsize is not called tender.
    s.armor.deck.wgt = n(80000.0);
    assert_eq!(s.comments()[0], "    Adequate machinery, storage, compartmentation space");
}

#[test]
fn percent_calc_in_tons_and_hundredths() {
    let s = battleship();
    assert_eq!(s.percent_calc(s.wgt_load()), "1,310 tons, 10.9 %");
    assert_eq!(s.percent_calc(n(12000.0)), "12,000 tons, 100.0 %");
    assert_eq!(s.percent_calc(n(1234567.5)), "1,234,568 tons, 10288.1 %");
    assert_eq!(s.percent_calc(n(0.4)), "0 tons, 0.0 %");
    assert_eq!(s.percent_calc(n(-600.0)), "-600 tons, -5.0 %");
    assert_eq!(s.percent_calc(Num::Undefined), "NaN tons, NaN %");
    assert_eq!(Ship::default().percent_calc(n(50.0)), "50 tons, 0.0 %");
}

fn battleship_heading_on_paper() -> Vec<&'static str> {
    vec![
        "Majestic, Great Britain Battleship laid down 1895 (Engine 1893)",
        "",
    ]
}

fn battleship_displacement_lines_on_paper() -> Vec<&'static str> {
    vec![
        "Displacement:",
        "    10,690 t light; 11,300 t standard; 12,000 t normal; 13,040 t full load",
        "",
    ]
}

fn battleship_dimension_lines_on_paper() -> Vec<&'static str> {
    vec![
        "Dimensions: Length (overall / waterline) x beam x draught (normal/deep)",
        "    (412.50 ft / 400.00 ft) x 70.00 ft x (25.00 / 26.25 ft)",
        "    (125.73 m / 121.92 m) x 21.34 m x (7.62 / 8.00 m)",
        "",
    ]
}

fn battleship_armament_lines_on_paper() -> Vec<&'static str> {
    vec![
        "Armament:",
        "    4 - 12.00\" / 305 mm 35.0 cal guns - 850.00lbs / 385.55kg shells, 80 per gun",
        "        Breech loading guns in turret on barbette mounts, 1895 Model",
        "        1 x Twin mount on centreline, forward deck forward",
        "        1 x Twin mount on centreline, aft deck aft",
        "    12 - 6.00\" / 152 mm 40.0 cal guns - 100.00lbs / 45.36kg shells, 1,200 per gun",
        "        Quick firing guns in casemate mounts, 1892 Model",
        "        12 x Single mounts on sides, evenly spread",
        "        12 hull mount in casemates- Limited use in all but light seas",
        "    Weight of broadside 4,000 lbs / 1,814 kg",
        "Main Torpedoes",
        "4 - 18.0\" / 457 mm, 16.50 ft / 5.03 m torpedoes - 1.500 t each, 6.000 t total",
        "    In 4 sets of submerged side tubes",
    ]
}

fn battleship_armor_lines_on_paper() -> Vec<&'static str> {
    vec![
        "",
        "Armour:",
        " - Belts:    Width (max)    Length (avg)    Height (avg)",
        "    Main:    9.00\" / 229 mm    260.00 ft / 79.25 m    8.00 ft / 2.44 m",
        "    Ends:    4.00\" / 102 mm    140.00 ft / 42.67 m    8.00 ft / 2.44 m",
        "    Upper:    6.00\" / 152 mm    200.00 ft / 60.96 m    8.00 ft / 2.44 m",
        "    Main Belt covers 65 % of normal length",
        "    Main belt does not fully cover magazines and engineering spaces",
        "",
        "- Torpedo Bulkhead - Strengthened structural bulkheads:",
        "        1.50\" / 38 mm    250.00 ft / 76.20 m    20.00 ft / 6.10 m",
        "    Beam between torpedo bulkheads 60.00 ft / 18.29 m",
        "",
        "- Gun armour:    Face (max)    Other gunhouse (avg)    Barbette/hoist (max)",
        "    Main:    10.0\" / 254 mm        5.50\" / 140 mm            14.0\" / 356 mm",
        "    2nd:    6.00\" / 152 mm        -            -",
        "",
        "- Protected deck - single deck:",
        "    For and Aft decks: 2.50\" / 64 mm",
        "    Forecastle: 1.00\" / 25 mm    Quarter deck: 1.00\" / 25 mm",
        "",
        "- Conning towers: Forward 10.00\" / 254 mm, Aft 0.00\" / 0 mm",
        "",
    ]
}

fn battleship_machinery_lines_on_paper() -> Vec<&'static str> {
    vec![
        "Machinery:",
        "    Coal fired boilers, complex reciprocating steam engines,",
        "    Direct drive, 2 shafts, 14,000 ihp / 10,440 Kw = 18.00 kts",
        "    Range 4,700nm at 10.00 kts",
        "    Bunker at max displacement = 1,300 tons (100% coal)",
        "",
    ]
}

fn battleship_complement_lines_on_paper() -> Vec<&'static str> {
    vec![
        "Complement:",
        "    573 - 745",
        "",
    ]
}

fn battleship_cost_lines_on_paper() -> Vec<&'static str> {
    vec![
        "Cost:",
        "    £0.982 million / $3.927 million",
        "",
    ]
}

fn battleship_weight_lines_on_paper() -> Vec<&'static str> {
    vec![
        "Distribution of weights at normal displacement:",
        "    Armament: 720 tons, 6.0 %",
        "    - Guns: 700 tons, 5.8 %",
        "    - Weapons: 20 tons, 0.2 %",
        "    Armour: 3,260 tons, 27.2 %",
        "    - Belts: 1,500 tons, 12.5 %",
        "    - Torpedo bulkhead: 300 tons, 2.5 %",
        "    - Armament: 600 tons, 5.0 %",
        "    - Armour Deck: 800 tons, 6.7 %",
        "    - Conning Tower: 60 tons, 0.5 %",
        "    Machinery: 1,400 tons, 11.7 %",
        "    Hull, fittings & equipment: 5,130 tons, 42.8 %",
        "    Fuel, ammunition & stores: 1,310 tons, 10.9 %",
        "    Miscellaneous weights: 180 tons, 1.5 %",
        "    - Hull below water: 50 tons",
        "    - Hull above water: 100 tons",
        "    - On freeboard deck: 20 tons",
        "    - Above deck: 10 tons",
        "",
    ]
}

fn battleship_survival_lines_on_paper() -> Vec<&'static str> {
    vec![
        "Overall survivability and seakeeping ability:",
        "    Survivability (Non-critical penetrating hits needed to sink ship):",
        "    17322 lbs / 7857 Kg = 20.0 x 12.0 \" / 305 mm shells or 2.7 torpedoes",
    ]
}

fn battleship_seakeeping_lines_on_paper() -> Vec<&'static str> {
    vec![
        "    Stability (Unstable if below 1.00): 1.28",
        "    Metacentric height 4.6 ft / 1.4 m",
        "    Roll period: 13.8 seconds",
        "    Steadiness    - As gun platform (Average = 50 %): 97 %",
        "        - Recoil effect (Restricted arc if above 1.00): 0.57",
        "    Seaboat quality (Average = 1.00): 1.94",
        "",
    ]
}

fn battleship_form_lines_on_paper() -> Vec<&'static str> {
    vec![
        "Hull form characteristics:",
        "    Hull has raised forecastle, low quarterdeck,",
        "    a ram bow and a round stern",
        "    Block coefficient (normal/deep): 0.600 / 0.612",
        "    Length to Beam Ratio: 5.71 : 1",
        "    'Natural speed' for length: 20.00 kts",
        "    Power going to wave formation at top speed: 40 %",
        "    Trim (Max stability = 0, Max steadiness = 100): 50",
        "    Bow angle (Positive = bow angles forward): -5.00 degrees",
        "    Stern overhang: 2.50 ft / 0.76 m",
    ]
}

fn battleship_freeboard_lines_on_paper() -> Vec<&'static str> {
    vec![
        "    Freeboard (% = length of deck as a percentage of waterline length):",
        "            Fore end, Aft end",
        "    - Forecastle:    20.00 %, 22.00 ft / 6.71 m, 20.00 ft / 6.10 m",
        "    - Forward deck:    30.00 %, 18.00 ft / 5.49 m, 18.00 ft / 5.49 m",
        "    - Aft deck:    35.00 %, 18.00 ft / 5.49 m, 18.00 ft / 5.49 m",
        "    - Quarter deck:    15.00 %, 10.00 ft / 3.05 m, 10.00 ft / 3.05 m",
        "    - Average freeboard:        18.00 ft / 5.49 m",
        "    Ship tends to be wet forward",
        "",
    ]
}

fn battleship_strength_lines_on_paper() -> Vec<&'static str> {
    vec![
        "Ship space, strength and comments:",
        "    Space    - Hull below water (magazines/engines, low = better): 84.0 %",
        "        - Above water (accommodation/working, high = better): 117.3 %",
        "    Waterplane Area: 20,160 Square feet or 1,873 Square metres",
        "    Displacement factor (Displacement / loading): 118 %",
        "    Structure weight / hull surface area: 183 lbs/sq ft or 892 Kg/sq metre",
        "Hull strength (Relative):",
        "        - Cross-sectional: 1.15",
        "        - Longitudinal: 3.67",
        "        - Overall: 1.29",
        "    Adequate machinery, storage, compartmentation space",
        "    Adequate accommodation and workspace room",
        "    Ship has slow easy roll, a good steady, gun platform",
        "    Excellent seaboat, comfortable, can fire her guns in the heaviest weather",
        "",
    ]
}

#[test]
fn battleship_heading_lines() {
    assert_eq!(battleship().heading(), battleship_heading_on_paper());
}

#[test]
fn battleship_displacement_lines() {
    assert_eq!(battleship().displacement_lines(), battleship_displacement_lines_on_paper());
}

#[test]
fn battleship_dimension_lines() {
    assert_eq!(battleship().dimension_lines(), battleship_dimension_lines_on_paper());
}

#[test]
fn battleship_armament_lines() {
    assert_eq!(battleship().armament_lines(), battleship_armament_lines_on_paper());
}

#[test]
fn battleship_armor_lines() {
    assert_eq!(battleship().armor_lines(), battleship_armor_lines_on_paper());
}

#[test]
fn battleship_machinery_lines() {
    assert_eq!(battleship().machinery_lines(), battleship_machinery_lines_on_paper());
}

#[test]
fn battleship_complement_lines() {
    assert_eq!(battleship().complement_lines(), battleship_complement_lines_on_paper());
}

#[test]
fn battleship_cost_lines() {
    assert_eq!(battleship().cost_lines(), battleship_cost_lines_on_paper());
}

#[test]
fn battleship_weight_lines() {
    assert_eq!(battleship().weight_lines(), battleship_weight_lines_on_paper());
}

#[test]
fn battleship_survival_lines() {
    assert_eq!(battleship().survival_lines(), battleship_survival_lines_on_paper());
}

#[test]
fn battleship_seakeeping_lines() {
    assert_eq!(battleship().seakeeping_lines(), battleship_seakeeping_lines_on_paper());
}

#[test]
fn battleship_form_lines() {
    assert_eq!(battleship().form_lines(), battleship_form_lines_on_paper());
}

#[test]
fn battleship_freeboard_lines() {
    assert_eq!(battleship().freeboard_lines(), battleship_freeboard_lines_on_paper());
}

#[test]
fn battleship_strength_lines() {
    assert_eq!(battleship().strength_lines(), battleship_strength_lines_on_paper());
}

#[test]
fn report_of_the_battleship() {
    let mut s = battleship();
    s.notes.push("Laid down at Portsmouth.".to_string());
    s.notes.push("".to_string());
    s.notes.push("Second note.".to_string());
    let mut want: Vec<&str> = Vec::new();
    want.extend(battleship_heading_on_paper());
    want.extend(battleship_displacement_lines_on_paper());
    want.extend(battleship_dimension_lines_on_paper());
    want.extend(battleship_armament_lines_on_paper());
    want.extend(battleship_armor_lines_on_paper());
    want.extend(battleship_machinery_lines_on_paper());
    want.extend(battleship_complement_lines_on_paper());
    want.extend(battleship_cost_lines_on_paper());
    want.extend(battleship_weight_lines_on_paper());
    want.extend(battleship_survival_lines_on_paper());
    want.extend(battleship_seakeeping_lines_on_paper());
    want.extend(battleship_form_lines_on_paper());
    want.extend(battleship_freeboard_lines_on_paper());
    want.extend(battleship_strength_lines_on_paper());
    want.extend(["Laid down at Portsmouth.", "", "Second note."]);
    assert_eq!(s.report(), want.join("\n"));
}

fn gunboat_heading_on_paper() -> Vec<&'static str> {
    vec![
        "Wespe,   laid down 1870",
        "Armoured Frigate (Broadside Ironclad)",
        "",
    ]
}

fn gunboat_displacement_lines_on_paper() -> Vec<&'static str> {
    vec![
        "Displacement:",
        "    790 t light; 840 t standard; 900 t normal; 980 t full load",
        "",
    ]
}

fn gunboat_dimension_lines_on_paper() -> Vec<&'static str> {
    vec![
        "Dimensions: Length (overall / waterline) x beam x draught (normal/deep)",
        "    (205.00 ft / 200.00 ft) x 30.00 ft (Bulges 32.00 ft) x (8.00 / 8.40 ft)",
        "    (62.48 m / 60.96 m) x 9.14 m (Bulges 9.75 m) x (2.44 / 2.56 m)",
        "",
    ]
}

fn gunboat_armament_lines_on_paper() -> Vec<&'static str> {
    vec![
        "Armament:",
        "    4 - 7.00\" / 178 mm 20.0 cal guns - 115.00lbs / 52.16kg shells, 60 per gun",
        "        Muzzle loading guns in broadside mounts, 1868 Model",
        "        4 x Single mounts on sides, evenly spread",
        "        4 hull mount on gundeck- Limited use in any sea",
        "    2 - 2.50\" / 63.5 mm 25.0 cal guns - 6.00lbs / 2.72kg shells, 150 per gun",
        "        Breech loading guns in broadside mounts, 1870 Model",
        "        2 x Single mounts on sides, forward deck centre",
        "    Weight of broadside 236 lbs / 107 kg",
        "Main Torpedoes",
        "2 - 14.0\" / 356 mm, 11.00 ft / 3.35 m torpedoes - 0.700 t each, 1.400 t total",
        "    In 2 sets of deck mounted side rotating tubes",
        "Mines",
        "10 - 500.00 lbs / 226.80 kg mines + 6 reloads - 2.232 t total",
        "    in Above water - Stern racks/rails",
        "2nd DC/AS Mortars",
        "1 - 300.00 lbs / 136.08 kg Depth Charges - 0.134 t total",
        "    in Stern depth charge racks",
    ]
}

fn gunboat_armor_lines_on_paper() -> Vec<&'static str> {
    vec![
        "",
        "Armour:",
        " - Belts:    Width (max)    Length (avg)    Height (avg)",
        "    Main:    4.50\" / 114 mm    130.00 ft / 39.62 m    6.00 ft / 1.83 m",
        "    Ends:    Unarmoured",
        "    Main Belt covers 65 % of normal length",
        "    Main belt does not fully cover magazines and engineering spaces",
        "    Main Belt inclined -2.50 degrees (positive = in)",
        "",
        "- Torpedo Bulkhead - Additional damage containing bulkheads:",
        "        1.00\" / 25 mm    100.00 ft / 30.48 m    8.00 ft / 2.44 m",
        "    Beam between torpedo bulkheads 26.00 ft / 7.92 m",
        "",
        "- Hull Bulges:",
        "        0.00\" / 0 mm    0.00 ft / 0.00 m    0.00 ft / 0.00 m",
        "",
        "- Armoured deck - single deck:",
        "    For and Aft decks: 1.00\" / 25 mm",
        "    Forecastle: 0.00\" / 0 mm    Quarter deck: 0.00\" / 0 mm",
        "",
    ]
}

fn gunboat_machinery_lines_on_paper() -> Vec<&'static str> {
    vec![
        "Machinery:",
        "    Coal fired boilers, simple reciprocating steam engines,",
        "    Direct drive, 1 shaft, 1,200 ihp / 895 Kw = 11.00 kts",
        "    Range 1,200nm at 8.00 kts",
        "    Bunker at max displacement = 100 tons",
        "",
    ]
}

fn gunboat_complement_lines_on_paper() -> Vec<&'static str> {
    vec![
        "Complement:",
        "    81 - 106",
        "",
    ]
}

fn gunboat_cost_lines_on_paper() -> Vec<&'static str> {
    vec![
        "Cost:",
        "    £0.095 million / $0.380 million",
        "",
    ]
}

fn gunboat_weight_lines_on_paper() -> Vec<&'static str> {
    vec![
        "Distribution of weights at normal displacement:",
        "    Armament: 49 tons, 5.4 %",
        "    - Guns: 42 tons, 4.7 %",
        "    - Weapons: 7 tons, 0.8 %",
        "    Armour: 175 tons, 19.4 %",
        "    - Belts: 110 tons, 12.2 %",
        "    - Torpedo bulkhead: 25 tons, 2.8 %",
        "    - Armour Deck: 40 tons, 4.4 %",
        "    Machinery: 156 tons, 17.4 %",
        "    Hull, fittings & equipment: 386 tons, 42.8 %",
        "    Fuel, ammunition & stores: 110 tons, 12.2 %",
        "    Miscellaneous weights: 24 tons, 2.7 %",
        "    - Hull below water: 5 tons",
        "    - Bulge void weights: 3 tons",
        "    - Hull above water: 10 tons",
        "    - On freeboard deck: 4 tons",
        "    - Above deck: 2 tons",
        "",
    ]
}

fn gunboat_survival_lines_on_paper() -> Vec<&'static str> {
    vec![
        "Overall survivability and seakeeping ability:",
        "    Survivability (Non-critical penetrating hits needed to sink ship):",
        "    463 lbs / 210 Kg = 3.9 x 7.0 \" / 178 mm shells or 0.9 torpedoes",
    ]
}

fn gunboat_seakeeping_lines_on_paper() -> Vec<&'static str> {
    vec![
        "    Stability (Unstable if below 1.00): 1.56",
        "    Metacentric height 1.7 ft / 0.5 m",
        "    Roll period: 10.2 seconds",
        "    Steadiness    - As gun platform (Average = 50 %): 35 %",
        "        - Recoil effect (Restricted arc if above 1.00): 0.26",
        "    Seaboat quality (Average = 1.00): 0.80",
        "",
    ]
}

fn gunboat_form_lines_on_paper() -> Vec<&'static str> {
    vec![
        "Hull form characteristics:",
        "    Hull has a flush deck,",
        "    a straight bulbous bow and small transom stern",
        "    Block coefficient (normal/deep): 0.656 / 0.660",
        "    Length to Beam Ratio: 6.67 : 1",
        "    'Natural speed' for length: 14.14 kts",
        "    Power going to wave formation at top speed: 30 %",
        "    Trim (Max stability = 0, Max steadiness = 100): 30",
        "    Bow angle (Positive = bow angles forward): 0.00 degrees",
        "    Stern overhang: 0.00 ft / 0.00 m",
    ]
}

fn gunboat_freeboard_lines_on_paper() -> Vec<&'static str> {
    vec![
        "    Freeboard (% = length of deck as a percentage of waterline length):",
        "            Fore end, Aft end",
        "    - Forecastle:    15.00 %, 0.00 ft / 0.00 m, 0.00 ft / 0.00 m",
        "    - Forward deck:    30.00 %, 0.00 ft / 0.00 m, 0.00 ft / 0.00 m",
        "    - Aft deck:    40.00 %, 0.00 ft / 0.00 m, 0.00 ft / 0.00 m",
        "    - Quarter deck:    15.00 %, 0.00 ft / 0.00 m, 0.00 ft / 0.00 m",
        "    - Average freeboard:        9.00 ft / 2.74 m",
        "",
    ]
}

fn gunboat_strength_lines_on_paper() -> Vec<&'static str> {
    vec![
        "Ship space, strength and comments:",
        "    Space    - Hull below water (magazines/engines, low = better): 120.0 %",
        "        - Above water (accommodation/working, high = better): 90.7 %",
        "    Waterplane Area: 4,600 Square feet or 427 Square metres",
        "    Displacement factor (Displacement / loading): 94 %",
        "    Structure weight / hull surface area: 59 lbs/sq ft or 288 Kg/sq metre",
        "Hull strength (Relative):",
        "        - Cross-sectional: 0.65",
        "        - Longitudinal: 1.06",
        "        - Overall: 0.68",
        "Caution: Hull subject to strain in open-sea",
        "    Cramped machinery, storage, compartmentation space",
        "    Adequate accommodation and workspace room",
        "    Poor seaboat, wet and uncomfortable, reduced performance in heavy weather",
        "",
    ]
}

#[test]
fn gunboat_heading_lines() {
    assert_eq!(gunboat().heading(), gunboat_heading_on_paper());
}

#[test]
fn gunboat_displacement_lines() {
    assert_eq!(gunboat().displacement_lines(), gunboat_displacement_lines_on_paper());
}

#[test]
fn gunboat_dimension_lines() {
    assert_eq!(gunboat().dimension_lines(), gunboat_dimension_lines_on_paper());
}

#[test]
fn gunboat_armament_lines() {
    assert_eq!(gunboat().armament_lines(), gunboat_armament_lines_on_paper());
}

#[test]
fn gunboat_armor_lines() {
    assert_eq!(gunboat().armor_lines(), gunboat_armor_lines_on_paper());
}

#[test]
fn gunboat_machinery_lines() {
    assert_eq!(gunboat().machinery_lines(), gunboat_machinery_lines_on_paper());
}

#[test]
fn gunboat_complement_lines() {
    assert_eq!(gunboat().complement_lines(), gunboat_complement_lines_on_paper());
}

#[test]
fn gunboat_cost_lines() {
    assert_eq!(gunboat().cost_lines(), gunboat_cost_lines_on_paper());
}

#[test]
fn gunboat_weight_lines() {
    assert_eq!(gunboat().weight_lines(), gunboat_weight_lines_on_paper());
}

#[test]
fn gunboat_survival_lines() {
    assert_eq!(gunboat().survival_lines(), gunboat_survival_lines_on_paper());
}

#[test]
fn gunboat_seakeeping_lines() {
    assert_eq!(gunboat().seakeeping_lines(), gunboat_seakeeping_lines_on_paper());
}

#[test]
fn gunboat_form_lines() {
    assert_eq!(gunboat().form_lines(), gunboat_form_lines_on_paper());
}

#[test]
fn gunboat_freeboard_lines() {
    assert_eq!(gunboat().freeboard_lines(), gunboat_freeboard_lines_on_paper());
}

#[test]
fn gunboat_strength_lines() {
    assert_eq!(gunboat().strength_lines(), gunboat_strength_lines_on_paper());
}

#[test]
fn report_of_the_gunboat() {
    let mut s = gunboat();
    let mut want: Vec<&str> = Vec::new();
    want.extend(gunboat_heading_on_paper());
    want.extend(gunboat_displacement_lines_on_paper());
    want.extend(gunboat_dimension_lines_on_paper());
    want.extend(gunboat_armament_lines_on_paper());
    want.extend(gunboat_armor_lines_on_paper());
    want.extend(gunboat_machinery_lines_on_paper());
    want.extend(gunboat_complement_lines_on_paper());
    want.extend(gunboat_cost_lines_on_paper());
    want.extend(gunboat_weight_lines_on_paper());
    want.extend(gunboat_survival_lines_on_paper());
    want.extend(gunboat_seakeeping_lines_on_paper());
    want.extend(gunboat_form_lines_on_paper());
    want.extend(gunboat_freeboard_lines_on_paper());
    want.extend(gunboat_strength_lines_on_paper());
    s.notes.clear();
    assert_eq!(s.report(), want.join("\n"));
}

#[test]
fn report_of_a_failed_design() {
    let mut s = gunboat();
    s.hull.cb = n(1.2);
    s.armor.wgt = n(1000.0);
    s.armor.deck.wgt = n(60000.0);
    s.engine.vmax = n(0.0);
    let text = s.report();
    let lines: Vec<&str> = text.split('\n').collect();
    assert_eq!(
        lines[..10],
        [
            "Wespe,   laid down 1870",
            "Armoured Frigate (Broadside Ironclad)",
            "DESIGN FAILURE: Displacement impossible with given dimensions",
            "DESIGN FAILURE: Armour weight too much for hull",
            "DESIGN FAILURE: Overall load weight too much for hull",
            "DESIGN FAILURE: Ship will capsize",
            "",
            "Displacement:",
            "    790 t light; 840 t standard; 900 t normal; 980 t full load",
            "",
        ]
    );
    let at = lines.iter().position(|l| *l == "Machinery:").unwrap();
    assert_eq!(lines[at..at + 3], ["Machinery:", "    Immobile floating battery", ""]);
    assert!(lines.contains(&"    Armour: 1,000 tons, 111.1 %"));
}

#[test]
fn report_sections() {
    let s = battleship();
    assert_eq!(s.complement_lines(), vec!["Complement:", "    573 - 745", ""]);
    assert_eq!(s.cost_lines(), vec!["Cost:", "    £0.982 million / $3.927 million", ""]);
    assert_eq!(
        Ship::default().armament_lines(),
        vec!["Armament:", "    Weight of broadside 0 lbs / 0 kg"]
    );
    assert_eq!(Ship::default().armor_lines(), vec!["", "Armour:"]);
    assert_eq!(Ship::default().machinery_lines(), vec!["Machinery:", "    Immobile floating battery", ""]);
    assert_eq!(
        s.heading(),
        vec!["Majestic, Great Britain Battleship laid down 1895 (Engine 1893)", ""]
    );
    assert_eq!(Ship::default().armor_weight_lines(), Vec::<String>::new());
    assert_eq!(Ship::default().misc_weight_lines(), Vec::<String>::new());
}

#[test]
fn weight_lines_of_bulges_and_towers() {
    let mut s = battleship();
    s.armor.bulge.wgt = n(150.0);
    s.armor.ct_aft.thick = n(3.0);
    s.armor.ct_aft.wgt = n(15.0);
    s.hull.bb = n(76.0);
    s.wgts.void = 1250;
    let armor = s.armor_weight_lines();
    assert_eq!(armor[3], "    - Bulges: 150 tons, 1.2 %");
    assert_eq!(armor[6], "    - Conning Towers: 75 tons, 0.6 %");
    assert_eq!(s.misc_weight_lines()[2], "    - Bulge void weights: 1,250 tons");
    s.hull.bb = n(70.0);
    assert_eq!(s.armor_weight_lines()[3], "    - Void: 150 tons, 1.2 %");
    assert_eq!(s.misc_weight_lines()[2], "    - Hull void weights: 1,250 tons");
}

#[test]
fn report_of_the_default_ship() {
    let text = Ship::default().report();
    let lines: Vec<&str> = text.split('\n').collect();
    assert_eq!(lines[0], ",   laid down 0");
    assert_eq!(lines[1], "Corvette (Unarmoured)");
    assert!(lines.contains(&"    Immobile floating battery"));
    assert!(lines.contains(&"    0 lbs / 0 Kg = 0.0 x 6.0 \" / 152 mm shells or NaN torpedoes"));
    assert!(lines.contains(&"    Displacement factor (Displacement / loading): 1000 %"));
    assert!(lines.contains(&"        - Overall: NaN"));
}

#[test]
fn internals_of_the_battleship() {
    let want = "\
Internal values
===============

Gun Batteries
------------
wgt_guns = 290.000000
wgt_gun_mounts = 410.000000
wgt_mag = 370.000000
wgt_gun_armor = 600.000000
wgt_borne = 490.000000
super_factor = 0.884615
gun_wtf = 1150.000000

battery[0]
-----------

battery[1]
-----------

battery[2]
-----------

battery[3]
-----------

battery[4]
-----------

Cs = 0.420000
Cm = 0.980000
Cp = 0.612245
Cwp = 0.720000
WP = 20160.000000
WS = 35000.000000
Ts = 24.500000

Stem length = 12.500000
Ram length = 8.000000
Freeboard dist = 17.500000
Leff = 392.000000

Rf max = 60.000000
Rf cruise = 80.000000
Rw max = 40.000000
Rw cruise = 20.000000
Pw max = 0.400000
Pw cruise = 0.200000

hp max = 14000.000000
hp cruise = 2300.000000

wgt_load = 1310.000000
wgt_hull = 5130.000000
wgt_hull_plus = 5340.000000
wgt_misc = 180
wgt_armor = 3260.000000

main belt = 950.000000
upper belt = 420.000000
end belt = 210.000000
deck = 800.000000

wgt_engine = 1400.000000
d_engine = 2800.000000
d_factor = 1.181102
bunker (normal) = 700.000000
bunker_factor = 1.350000

stability = 1.277659
seaboat = 1.943758

Coal
Complex
Direct
num_engines = 2

gun_concentration = 0.700000
str_cross = 1.152028
str_long = 3.669940
str_comp = 1.293547
flotation = 17321.723051";
    assert_eq!(battleship().internals(), want);
}

#[test]
fn recoil_of_a_ship_without_stability() {
    // Armor beyond the displacement leaves the hull less than no weight: the
    // weights sum to less than nothing, and the stability is that sum. The
    // recoil is then taken as it is.
    let mut s = battleship();
    s.armor.wgt = n(20000.0);
    assert_eq!(s.wgt_hull(), n(-12210.0));
    assert_eq!(s.stability_adj(), Num::Micro(-5_979_357_200));
    assert_eq!(s.recoil(), Num::Micro(496_776));
    assert_eq!(s.flotation(), n(0.0));
    assert_eq!(s.seaboat(), n(2.0));
    assert!(s.capsize_warn());
    assert!(s.armor_overweight());
}

#[test]
fn flotation_of_a_tender_ship() {
    // Below a stability of one the flotation goes by its fourth power.
    let mut s = battleship();
    s.armor.deck.wgt = n(10000.0);
    assert_eq!(s.stability_adj(), Num::Micro(973_726));
    assert_eq!(s.flotation(), Num::Micro(13_776_248_914));
    assert_eq!(s.damage_torp_num(), Num::Micro(2_262_113));
    assert!(s.flotation().lt(battleship().flotation()));
}

/// The battleship as a fast ship of 1925: longer and lower, with turbines
/// on four shafts, more wave-making than friction at her thirty knots, and
/// a deck so heavy that she is tender.
fn cruiser() -> Ship {
    let mut s = battleship();
    s.year = 1925;
    s.trim = 60;
    s.hull.lwl = n(700.0);
    s.hull.len2beam = n(10.0);
    s.hull.free_cap_deck = n(12.0);
    s.hull.freeboard_dist = n(14.0);
    s.hull.freeboard = n(15.0);
    s.engine.vmax = n(30.0);
    s.engine.rf_max = n(40.0);
    s.engine.rw_max = n(60.0);
    s.engine.hp_max = n(90000.0);
    s.engine.shafts = 4;
    s.engine.reciprocating = false;
    s.armor.deck.wgt = n(10000.0);
    s.batteries[0].groups[0].distribution = GunDistributionType::CenterlineEven;
    s.batteries[0].mount_num = 4;
    s
}

#[test]
fn cruiser_deck_room() {
    assert_eq!(cruiser().deck_room(), Num::Micro(938_219));
}

#[test]
fn cruiser_cost_dollar() {
    assert_eq!(cruiser().cost_dollar(), Num::Micro(12_851_998));
}

#[test]
fn cruiser_cost_lb() {
    assert_eq!(cruiser().cost_lb(), Num::Micro(3_212_999));
}

#[test]
fn cruiser_stability() {
    assert_eq!(cruiser().stability(), Num::Micro(862_981));
}

#[test]
fn cruiser_stability_adj() {
    assert_eq!(cruiser().stability_adj(), Num::Micro(805_449));
}

#[test]
fn cruiser_metacenter() {
    assert_eq!(cruiser().metacenter(), Num::Micro(1_788_898));
}

#[test]
fn cruiser_roll_period() {
    assert_eq!(cruiser().roll_period(), Num::Micro(21_981_374));
}

#[test]
fn cruiser_super_factor_long() {
    assert_eq!(cruiser().super_factor_long(), Num::Micro(571_928));
}

#[test]
fn cruiser_seaboat() {
    assert_eq!(cruiser().seaboat(), Num::Micro(442_899));
}

#[test]
fn cruiser_steadiness() {
    assert_eq!(cruiser().steadiness(), Num::Micro(26_573_940));
}

#[test]
fn cruiser_seakeeping() {
    assert_eq!(cruiser().seakeeping(), Num::Micro(235_391));
}

#[test]
fn cruiser_wgt_struct() {
    assert_eq!(cruiser().wgt_struct(), Num::Micro(175_564_202));
}

#[test]
fn cruiser_str_cross() {
    assert_eq!(cruiser().str_cross(), Num::Micro(1_171_861));
}

#[test]
fn cruiser_str_long() {
    assert_eq!(cruiser().str_long(), Num::Micro(967_288));
}

#[test]
fn cruiser_str_comp() {
    assert_eq!(cruiser().str_comp(), Num::Micro(1_014_811));
}

#[test]
fn cruiser_flotation_base() {
    assert_eq!(cruiser().flotation_base(), Num::Micro(10_032_000_000));
}

#[test]
fn cruiser_flotation() {
    assert_eq!(cruiser().flotation(), Num::Micro(5_860_768_294));
}

#[test]
fn cruiser_damage_shell_num() {
    assert_eq!(cruiser().damage_shell_num(), Num::Micro(6_783_296));
}

#[test]
fn cruiser_damage_torp_num() {
    assert_eq!(cruiser().damage_torp_num(), Num::Micro(866_050));
}

#[test]
fn cruiser_recoil() {
    assert_eq!(cruiser().recoil(), Num::Micro(426_770));
}

#[test]
fn cruiser_vitalspace_length() {
    assert_eq!(cruiser().vitalspace_length(), Num::Micro(382_432_040));
}

#[test]
fn cruiser_at_sea() {
    let s = cruiser();
    // The section is the stronger: the blend goes by the fourth root.
    assert!(s.str_cross().gt(s.str_long()));
    assert!(s.tender_warn());
    assert!(!s.capsize_warn());
    assert!(s.is_unsteady());
    assert_eq!(s.type_sea(), SeaType::BadSea);
    assert!(!s.hull_strained());
    assert_eq!(s.deck_room_quality(), "Adequate");
    assert_eq!(s.design_failures(), vec![]);
    assert_eq!(s.machinery_cautions(), Vec::<String>::new());
    assert_eq!(
        s.comments(),
        vec![
            "Caution: Poor stability - excessive risk of capsizing".to_string(),
            "    Adequate machinery, storage, compartmentation space".to_string(),
            "    Adequate accommodation and workspace room".to_string(),
            "    Ship has quick, lively roll, not a steady gun platform".to_string(),
            "    Caution: Lacks seaworthiness - very limited seakeeping ability".to_string(),
        ]
    );
}

#[test]
fn more_armor_keeps_the_failure_in_the_report() {
    let line = "DESIGN FAILURE: Armour weight too much for hull";
    let mut s = battleship();
    assert!(!s.report().contains(line));
    s.armor.wgt = n(11500.0);
    assert!(s.armor_overweight());
    assert!(s.report().split('\n').any(|l| l == line));
    for more in [11500.5, 12000.0, 50000.0, 9.0e12] {
        let mut heavier = s.clone();
        heavier.armor.wgt = n(more);
        assert!(heavier.wgt_armor().ge(s.wgt_armor()));
        assert!(heavier.armor_overweight(), "{}", more);
        assert!(heavier.report().split('\n').any(|l| l == line), "{}", more);
        assert!(sharpie::text::contains(&heavier.report(), line));
    }
}

#[test]
fn internals_of_a_ship_without_a_ram() {
    let mut s = battleship();
    s.hull.ram = false;
    let text = s.internals();
    let lines: Vec<&str> = text.split('\n').collect();
    assert!(!lines.iter().any(|l| l.starts_with("Ram length")));
    let at = lines.iter().position(|l| *l == "Stem length = 12.500000").unwrap();
    assert_eq!(lines[at + 1], "Freeboard dist = 17.500000");
    assert_eq!(lines.iter().filter(|l| **l == "-----------").count(), 5);
    assert_eq!(lines[16], "battery[1]");
}

#[test]
fn displacements_stand_in_order() {
    for s in [battleship(), gunboat(), cruiser(), Ship::default()] {
        assert!(s.d_lite().le(s.d_std()));
        assert!(s.d_std().le(s.hull.d));
        assert!(s.hull.d.le(s.d_max()));
    }
    let s = battleship();
    assert_eq!(s.d_lite(), n(10690.0));
    assert_eq!(s.d_std(), n(11300.0));
    // Four fifths of the 1300 tons of fuel at maximum displacement.
    assert_eq!(s.d_max(), n(13040.0));
    assert_eq!(s.t_max(), n(26.25));
    assert_eq!(s.cb_max(), n(0.612));
}

#[test]
fn flotation_is_near_the_fourth_power() {
    // What a ship of these figures has at a stability of one.
    let stable = 5_555_555_555_i128;
    for s in [0_i128, 1, 999, 30_000, 31_600, 500_000, 973_726, 999_999, 1_000_000] {
        let got = match Ship::flotation_from(n(10000.0), Num::Micro(s as i64), n(0.8), n(1.2), 1900) {
            Num::Micro(m) => m as i128,
            Num::Undefined => panic!("no number at {}", s),
        };
        let unit = 10_i128.pow(24);
        // In wide arithmetic: the exact product, cut to millionths.
        let square = s * s;
        let exact_high = stable * square / 10_i128.pow(12) * square / 10_i128.pow(12);
        assert_eq!(got, exact_high, "{}", s);
        let low = (stable as f64) * (s as f64).powi(4) / (unit as f64);
        assert!((got as f64) <= low + 1e-3 && low < (got + 2) as f64, "{}: {} {}", s, got, low);
    }
}

#[test]
fn parts_in_metric_units_are_their_own_equivalents() {
    let one = sharpie::measure::Metric {
        long: n(1.0),
        small: n(1.0),
        weight: n(1.0),
        area: n(1.0),
        weight_per_area: n(1.0),
        power: n(1.0),
    };
    let mut s = battleship();
    s.hull.units = one;
    s.armor.units = one;
    s.batteries[0].units = one;
    s.torps[0].units = one;
    assert_eq!(
        s.dimension_lines()[2],
        "    (412.50 m / 400.00 m) x 70.00 m x (25.00 / 26.25 m)"
    );
    assert_eq!(
        s.armament_lines()[1],
        "    4 - 12.00\" / 12 mm 35.0 cal guns - 850.00lbs / 850.00kg shells, 80 per gun"
    );
    // The other batteries are in inches still.
    assert_eq!(
        s.armament_lines()[5],
        "    12 - 6.00\" / 152 mm 40.0 cal guns - 100.00lbs / 45.36kg shells, 1,200 per gun"
    );
    assert_eq!(
        s.armament_lines()[11],
        "4 - 18.0\" / 18 mm, 16.50 ft / 16.50 m torpedoes - 1.500 t each, 6.000 t total"
    );
    assert_eq!(s.armor_lines()[3], "    Main:    9.00\" / 9 mm    260.00 ft / 260.00 m    8.00 ft / 8.00 m");
    assert_eq!(
        s.armor_lines()[14],
        "    Main:    10.0\" / 10 mm        5.50\" / 6 mm            14.0\" / 14 mm"
    );
    // What is the ship's own goes by feet and pounds.
    assert_eq!(s.seakeeping_lines()[1], "    Metacentric height 4.6 ft / 1.4 m");
}

#[test]
fn small_calibers_have_a_decimal_in_millimeters() {
    let mut b = Battery::default();
    b.diam = n(3.9);
    assert_eq!(b.caliber_metric(), "99.1");
    b.diam = n(3.94);
    assert_eq!(b.caliber_metric(), "100");
    b.diam = n(1.5);
    assert_eq!(b.caliber_metric(), "38.1");
    b.diam = n(50.0);
    assert_eq!(b.caliber_metric(), "1,270");
    b.diam = Num::Undefined;
    assert_eq!(b.caliber_metric(), "NaN");
}

#[test]
fn sets_of_the_machinery_by_name() {
    let mut s = battleship();
    assert_eq!(s.engine.fuels.names(), "Coal");
    s.engine.fuels.oil = true;
    s.engine.fuels.battery = true;
    assert_eq!(s.engine.fuels.names(), "Coal | Oil | Battery");
    s.engine.fuels.coal = false;
    s.engine.fuels.diesel = true;
    s.engine.fuels.gasoline = true;
    assert_eq!(s.engine.fuels.names(), "Oil | Diesel | Gasoline | Battery");
    s.engine.boilers.simple = true;
    s.engine.boilers.turbine = true;
    assert_eq!(s.engine.boilers.names(), "Simple | Complex | Turbine");
    s.engine.drives.direct = false;
    assert_eq!(s.engine.drives.names(), "");
    s.engine.drives.geared = true;
    s.engine.drives.electric = true;
    s.engine.drives.hydraulic = true;
    assert_eq!(s.engine.drives.names(), "Geared | Electric | Hydraulic");
    let text = s.internals();
    let lines: Vec<&str> = text.split('\n').collect();
    let at = lines.iter().position(|l| *l == "Oil | Diesel | Gasoline | Battery").unwrap();
    assert_eq!(lines[at + 1], "Simple | Complex | Turbine");
    assert_eq!(lines[at + 2], "Geared | Electric | Hydraulic");
    assert_eq!(lines[at + 3], "num_engines = 2");
    assert_eq!(Ship::default().engine.fuels.names(), "");
}

#[test]
fn a_ship_is_complete_with_three_batteries_and_torpedoes() {
    let mut s = Ship::default();
    assert!(s.complete());
    s.batteries.truncate(3);
    s.torps.truncate(1);
    assert!(s.complete());
    s.torps.clear();
    assert!(!s.complete());
    let mut s = Ship::default();
    s.batteries.truncate(2);
    assert!(!s.complete());
}

#[test]
fn the_line_of_the_armor_is_the_flag_but_for_her_own_words() {
    let line = "DESIGN FAILURE: Armour weight too much for hull";
    for s in [battleship(), gunboat(), cruiser(), Ship::default()] {
        let held = s.report().split('\n').any(|l| l == line);
        assert_eq!(held, s.armor_overweight());
    }
    // A note that reads as the line is in the report whatever the armor weighs.
    let mut s = battleship();
    s.notes.push(line.to_string());
    assert!(!s.armor_overweight());
    assert!(s.report().split('\n').any(|l| l == line));
    // No other line of the report is as long and begins alike but this one.
    let s = battleship();
    assert!(s.weight_lines()[0].len() == line.len());
    assert_ne!(s.weight_lines()[0], line);
}
