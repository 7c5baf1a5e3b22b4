use ingest_pipeline::active_match::{ActiveMatch, ActiveMatchPlayer, ClickHouseActiveMatch};
use ingest_pipeline::salts::{get_file_name, keep_valid_salts, DataType, Salts, SaltsResponse};
use ingest_pipeline::storage_key::FileData;

#[test]
fn active_match_row_splits_players_into_columns() {
    let p = |a: u64, t: u8, ab: bool, h: u32| ActiveMatchPlayer { account_id: a, team: t, abandoned: ab, hero_id: h };
    let am = ActiveMatch {
        match_id: 10,
        scraped_at: 1_700_000_000,
        winning_team: 1,
        start_time: 5,
        players: vec![p(1, 0, false, 7), p(2, 1, true, 8)],
        lobby_id: 99,
        duration_s: 600,
        spectators: 3,
        open_spectator_slots: 4,
        objectives_mask_team0: 0xff,
        objectives_mask_team1: 0x0f,
        net_worth_team_0: 1000,
        net_worth_team_1: 2000,
        match_mode: 1,
        game_mode: 2,
        match_score: 3000,
        region_mode: 4,
    };
    let row = ClickHouseActiveMatch::from(am);
    assert_eq!(row.scraped_at, 1_700_000_000i64);
    assert_eq!(row.players_account_id, vec![1, 2]);
    assert_eq!(row.players_team, vec![0, 1]);
    assert_eq!(row.players_abandoned, vec![false, true]);
    assert_eq!(row.players_hero_id, vec![7, 8]);
    assert_eq!(row.lobby_id, 99);
    assert_eq!(row.objectives_mask_team1, 0x0f);
    assert_eq!(row.region_mode, 4);
}

#[test]
fn download_file_names() {
    let s = Salts { cluster_id: 45, match_id: 123, metadata_salt: Some(67), replay_salt: None };
    assert_eq!(get_file_name(&s, DataType::Meta), Some("T002_M123_C45_S67.meta.bz2".to_string()));
    assert_eq!(get_file_name(&s, DataType::Demo), None);
    let t = Salts { cluster_id: 0, match_id: 18446744073709551615, metadata_salt: None, replay_salt: Some(4294967295) };
    assert_eq!(
        get_file_name(&t, DataType::Demo),
        Some("T001_M18446744073709551615_C0_S4294967295.dem.bz2".to_string())
    );
    let name = get_file_name(&s, DataType::Meta).unwrap();
    let f = FileData::try_from(&name).unwrap();
    assert_eq!(f.file_name, "T002_M123_C45_S67");
}

#[test]
fn salts_filtering_and_response() {
    let s = Salts { cluster_id: 1, match_id: 2, metadata_salt: Some(3), replay_salt: Some(4) };
    let k = keep_valid_salts(s, true, false);
    assert_eq!(k, Salts { cluster_id: 1, match_id: 2, metadata_salt: Some(3), replay_salt: None });
    assert_eq!(SaltsResponse::from_salts(&k), SaltsResponse { meta: true, replay: false });
    let none = keep_valid_salts(s, false, false);
    assert_eq!(SaltsResponse::from_salts(&none), SaltsResponse { meta: false, replay: false });
}
