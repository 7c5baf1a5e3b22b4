use vstd::prelude::*;

verus! {

/// One player of an in-progress match.
#[derive(Debug, Clone, Copy, PartialEq, Eq, Structural)]
pub struct ActiveMatchPlayer {
    pub account_id: u64,
    pub team: u8,
    pub abandoned: bool,
    pub hero_id: u32,
}

/// A snapshot of one in-progress match, taken at `scraped_at`.
#[derive(Debug, Clone)]
pub struct ActiveMatch {
    pub match_id: u32,
    pub scraped_at: u32,
    pub winning_team: u8,
    pub start_time: u32,
    pub players: Vec<ActiveMatchPlayer>,
    pub lobby_id: u64,
    pub duration_s: u32,
    pub spectators: u32,
    pub open_spectator_slots: u32,
    pub objectives_mask_team0: u16,
    pub objectives_mask_team1: u16,
    pub net_worth_team_0: u32,
    pub net_worth_team_1: u32,
    pub match_mode: u8,
    pub game_mode: u8,
    pub match_score: u32,
    pub region_mode: u8,
}

/// The row an active-match snapshot becomes in the analytical store: the
/// players are split into one column per field, in the same order.
#[derive(Debug, Clone)]
pub struct ClickHouseActiveMatch {
    pub match_id: u32,
    pub scraped_at: i64,
    pub start_time: u32,
    pub winning_team: u8,
    pub players_account_id: Vec<u64>,
    pub players_team: Vec<u8>,
    pub players_abandoned: Vec<bool>,
    pub players_hero_id: Vec<u32>,
    pub lobby_id: u64,
    pub net_worth_team_0: u32,
    pub net_worth_team_1: u32,
    pub duration_s: u32,
    pub spectators: u32,
    pub open_spectator_slots: u32,
    pub objectives_mask_team0: u16,
    pub objectives_mask_team1: u16,
    pub match_mode: u8,
    pub game_mode: u8,
    pub match_score: u32,
    pub region_mode: u8,
}

impl ClickHouseActiveMatch {
    /// Turns a snapshot into its store row.
    pub fn from(am: ActiveMatch) -> (r: ClickHouseActiveMatch)
        ensures
            r.match_id == am.match_id,
            r.scraped_at == am.scraped_at as i64,
            r.start_time == am.start_time,
            r.winning_team == am.winning_team,
            r.players_account_id@ == am.players@.map_values(|p: ActiveMatchPlayer| p.account_id),
            r.players_team@ == am.players@.map_values(|p: ActiveMatchPlayer| p.team),
            r.players_abandoned@ == am.players@.map_values(|p: ActiveMatchPlayer| p.abandoned),
            r.players_hero_id@ == am.players@.map_values(|p: ActiveMatchPlayer| p.hero_id),
            r.lobby_id == am.lobby_id,
            r.net_worth_team_0 == am.net_worth_team_0,
            r.net_worth_team_1 == am.net_worth_team_1,
            r.duration_s == am.duration_s,
            r.spectators == am.spectators,
            r.open_spectator_slots == am.open_spectator_slots,
            r.objectives_mask_team0 == am.objectives_mask_team0,
            r.objectives_mask_team1 == am.objectives_mask_team1,
            r.match_mode == am.match_mode,
            r.game_mode == am.game_mode,
            r.match_score == am.match_score,
            r.region_mode == am.region_mode,
    {
        let mut account_ids: Vec<u64> = Vec::new();
        let mut teams: Vec<u8> = Vec::new();
        let mut abandoned: Vec<bool> = Vec::new();
        let mut hero_ids: Vec<u32> = Vec::new();
        let mut i: usize = 0;
        while i < am.players.len()
            invariant
                i <= am.players@.len(),
                account_ids@ == am.players@.subrange(0, i as int).map_values(
                    |p: ActiveMatchPlayer| p.account_id,
                ),
                teams@ == am.players@.subrange(0, i as int).map_values(|p: ActiveMatchPlayer| p.team),
                abandoned@ == am.players@.subrange(0, i as int).map_values(
                    |p: ActiveMatchPlayer| p.abandoned,
                ),
                hero_ids@ == am.players@.subrange(0, i as int).map_values(
                    |p: ActiveMatchPlayer| p.hero_id,
                ),
            decreases am.players@.len() - i,
        {
            let p = am.players[i];
            account_ids.push(p.account_id);
            teams.push(p.team);
            abandoned.push(p.abandoned);
            hero_ids.push(p.hero_id);
            proof {
                let next = am.players@.subrange(0, i + 1);
                assert(next =~= am.players@.subrange(0, i as int).push(p));
                assert(account_ids@ =~= next.map_values(|p: ActiveMatchPlayer| p.account_id));
                assert(teams@ =~= next.map_values(|p: ActiveMatchPlayer| p.team));
                assert(abandoned@ =~= next.map_values(|p: ActiveMatchPlayer| p.abandoned));
                assert(hero_ids@ =~= next.map_values(|p: ActiveMatchPlayer| p.hero_id));
            }
            i = i + 1;
        }
        assert(am.players@.subrange(0, am.players@.len() as int) =~= am.players@);
        ClickHouseActiveMatch {
            match_id: am.match_id,
            scraped_at: am.scraped_at as i64,
            start_time: am.start_time,
            winning_team: am.winning_team,
            players_account_id: account_ids,
            players_team: teams,
            players_abandoned: abandoned,
            players_hero_id: hero_ids,
            lobby_id: am.lobby_id,
            net_worth_team_0: am.net_worth_team_0,
            net_worth_team_1: am.net_worth_team_1,
            duration_s: am.duration_s,
            spectators: am.spectators,
            open_spectator_slots: am.open_spectator_slots,
            objectives_mask_team0: am.objectives_mask_team0,
            objectives_mask_team1: am.objectives_mask_team1,
            match_mode: am.match_mode,
            game_mode: am.game_mode,
            match_score: am.match_score,
            region_mode: am.region_mode,
        }
    }
}

} // verus!
