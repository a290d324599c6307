use bflib::cfg::{
    default_blue_deployables, default_blue_troops, default_red_deployables, default_red_troops, Cfg,
    CargoConfig, LimitEnforceTyp, PersistTyp,
};
use bflib::kinds::{LifeType, Side, Vehicle};

fn v(name: &str) -> Vehicle {
    Vehicle(name.to_string())
}

#[test]
fn default_scalars() {
    let cfg = Cfg::default();
    assert_eq!(cfg.repair_time, 1800);
    assert_eq!(cfg.logistics_exclusion, 4000);
    assert_eq!(cfg.crate_load_distance, 50);
    assert_eq!(cfg.side_switches, Some(1));
}

#[test]
fn default_life_types() {
    let cfg = Cfg::default();
    assert_eq!(cfg.life_types.len(), 37);
    assert_eq!(cfg.life_types.get(&v("FA-18C_hornet")), Some(&LifeType::Standard));
    assert_eq!(cfg.life_types.get(&v("Ka-50_3")), Some(&LifeType::Attack));
    assert_eq!(cfg.life_types.get(&v("UH-1H")), Some(&LifeType::Logistics));
    assert_eq!(cfg.life_types.get(&v("Yak-52")), Some(&LifeType::Recon));
    assert_eq!(cfg.life_types.get(&v("Mirage-F1CE")), Some(&LifeType::Intercept));
    assert_eq!(cfg.life_types.get(&v("B-52H")), None);
}

#[test]
fn default_lives() {
    let cfg = Cfg::default();
    assert_eq!(cfg.default_lives.len(), 5);
    assert_eq!(cfg.default_lives.get(&LifeType::Standard), Some(&(3, 21600)));
    assert_eq!(cfg.default_lives.get(&LifeType::Intercept), Some(&(4, 21600)));
    assert_eq!(cfg.default_lives.get(&LifeType::Attack), Some(&(4, 21600)));
    assert_eq!(cfg.default_lives.get(&LifeType::Logistics), Some(&(6, 21600)));
    assert_eq!(cfg.default_lives.get(&LifeType::Recon), Some(&(6, 21600)));
}

#[test]
fn default_cargo() {
    let cfg = Cfg::default();
    assert_eq!(cfg.cargo.len(), 5);
    let two = CargoConfig { troop_slots: 1, crate_slots: 1, total_slots: 2 };
    let one = CargoConfig { troop_slots: 1, crate_slots: 1, total_slots: 1 };
    assert_eq!(cfg.cargo.get(&v("UH-1H")), Some(&two));
    assert_eq!(cfg.cargo.get(&v("Mi-8MT")), Some(&two));
    assert_eq!(cfg.cargo.get(&v("SA342L")), Some(&one));
    assert_eq!(cfg.cargo.get(&v("SA342M")), Some(&one));
    assert_eq!(cfg.cargo.get(&v("Mi-24P")), Some(&one));
    assert_eq!(cfg.cargo.get(&v("FA-18C_hornet")), None);
}

#[test]
fn default_crate_templates() {
    let cfg = Cfg::default();
    assert_eq!(cfg.crate_template.len(), 2);
    assert_eq!(cfg.crate_template.get(&Side::Red).map(|s| s.as_str()), Some("RCRATE"));
    assert_eq!(cfg.crate_template.get(&Side::Blue).map(|s| s.as_str()), Some("BCRATE"));
    assert!(cfg.crate_template.get(&Side::Neutral).is_none());
}

#[test]
fn default_troops() {
    let cfg = Cfg::default();
    let red = &cfg.troops[&Side::Red];
    let blue = &cfg.troops[&Side::Blue];
    assert_eq!(red.len(), 5);
    assert_eq!(blue.len(), 5);
    assert_eq!(red[0].name, "JTAC Squad");
    assert_eq!(red[0].template, "RJTACTROOP");
    assert!(!red[0].can_capture);
    assert_eq!(red[0].weight, 1200);
    assert_eq!(red[4].name, "Igla Squad");
    assert_eq!(blue[4].name, "Stinger Squad");
    assert_eq!(blue[4].template, "BSTINGERROOP");
    assert_eq!(blue[1].template, "BSTANDARDTROOP");
    assert!(blue[1].can_capture);
    for t in red.iter().chain(blue.iter()) {
        assert_eq!(t.persist, PersistTyp::Forever);
        assert_eq!(t.limit, 10);
        assert_eq!(t.limit_enforce, LimitEnforceTyp::DeleteOldest);
    }
    assert!(!cfg.troops.contains_key(&Side::Neutral));
}

#[test]
fn default_deployables() {
    let cfg = Cfg::default();
    let red = &cfg.deployables[&Side::Red];
    let blue = &cfg.deployables[&Side::Blue];
    assert_eq!(red.len(), 10);
    assert_eq!(blue.len(), 8);
    let sa11 = &red[1];
    assert_eq!(sa11.path, vec!["Radar SAMs".to_string(), "SA 11 Buk".to_string()]);
    assert_eq!(sa11.template, "DEPSA11");
    assert_eq!(sa11.limit, 2);
    assert_eq!(sa11.crates.len(), 3);
    assert_eq!(sa11.crates[0].name, "SA11 Launcher");
    assert_eq!(sa11.crates[0].required, 2);
    assert_eq!(sa11.repair_crate.as_ref().map(|c| c.name.as_str()), Some("Buk Repair"));
    let farp = &red[9];
    assert_eq!(farp.path, vec!["FARP".to_string()]);
    assert_eq!(farp.logistics, Some(2000));
    assert_eq!(farp.crates[0].required, 4);
    let hawk = &blue[1];
    assert_eq!(hawk.template, "DEPHAWK");
    assert_eq!(hawk.crates.len(), 4);
    assert_eq!(hawk.repair_crate.as_ref().map(|c| c.weight), Some(1200));
    assert_eq!(blue[7].template, "DEPFARP");
    assert_eq!(blue[7].logistics, Some(2000));
}

#[test]
fn default_config_is_consistent() {
    let cfg = Cfg::default();
    for (_, lt) in cfg.life_types.iter() {
        assert!(cfg.default_lives.contains_key(lt));
    }
    for (veh, cargo) in cfg.cargo.iter() {
        assert!(cfg.life_types.contains_key(veh));
        assert!(cargo.total_slots <= cargo.troop_slots as u16 + cargo.crate_slots as u16);
    }
    for side in [Side::Red, Side::Blue] {
        for d in cfg.deployables[&side].iter() {
            assert!(!d.path.is_empty());
            assert!(d.limit >= 1);
            assert!(!d.crates.is_empty());
            assert!(d.crates.iter().all(|c| c.required >= 1));
            assert!(d.repair_crate.iter().all(|c| c.required >= 1));
        }
        for t in cfg.troops[&side].iter() {
            assert!(t.limit >= 1);
        }
    }
}

#[test]
fn default_cfg_holds_the_side_tables() {
    let cfg = Cfg::default();
    let dbg = |x: &dyn std::fmt::Debug| format!("{:?}", x);
    assert_eq!(dbg(&cfg.deployables[&Side::Red]), dbg(&default_red_deployables()));
    assert_eq!(dbg(&cfg.deployables[&Side::Blue]), dbg(&default_blue_deployables()));
    assert_eq!(dbg(&cfg.troops[&Side::Red]), dbg(&default_red_troops()));
    assert_eq!(dbg(&cfg.troops[&Side::Blue]), dbg(&default_blue_troops()));
}

#[test]
fn blue_troops_mirror_red() {
    let r = default_red_troops();
    let b = default_blue_troops();
    assert_eq!(r.len(), 5);
    assert_eq!(b.len(), 5);
    for i in 0..5 {
        assert_eq!(b[i].weight, r[i].weight);
        assert_eq!(b[i].can_capture, r[i].can_capture);
        assert_eq!(b[i].limit, r[i].limit);
        assert_eq!(b[i].persist, r[i].persist);
        assert_eq!(b[i].limit_enforce, r[i].limit_enforce);
        assert_ne!(b[i].template, r[i].template);
    }
    for i in 0..4 {
        assert_eq!(b[i].name, r[i].name);
        assert_eq!(b[i].template, format!("B{}", &r[i].template[1..]));
    }
}

#[test]
fn sides_share_only_m109_and_farp() {
    let r = default_red_deployables();
    let b = default_blue_deployables();
    let dbg = |x: &dyn std::fmt::Debug| format!("{:?}", x);
    assert_eq!(dbg(&b[6]), dbg(&r[8]));
    assert_eq!(dbg(&b[7]), dbg(&r[9]));
    for d in &b[..6] {
        assert!(r.iter().all(|x| x.template != d.template));
    }
}
