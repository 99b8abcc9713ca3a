use homelab_mcp::api_model::{
    CalendarDate, CompletenessStatus, EpisodePresence, EpisodeReleaseStatus, SeasonAvailability,
};
use homelab_mcp::media::availability::{
    checked_count, compare_season_availability, nonempty_tmdb_id, summary, ExpectedEpisode,
    ExpectedSeason, LibraryEpisode, LibrarySeason,
};
use homelab_mcp::media::error::MediaError;

fn date(year: i32, month: u32, day: u32) -> CalendarDate {
    CalendarDate { year, month, day }
}

fn as_of() -> CalendarDate {
    date(2026, 8, 19)
}

fn episode(tmdb_id: &str, episode_number: u32, air_date: Option<CalendarDate>) -> ExpectedEpisode {
    ExpectedEpisode {
        tmdb_id: tmdb_id.into(),
        episode_number,
        title: format!("Episode {episode_number}"),
        air_date,
    }
}

fn expected(season: u32, episodes: Vec<ExpectedEpisode>) -> ExpectedSeason {
    ExpectedSeason {
        media_id: "60625".into(),
        title: "Series".into(),
        season,
        episodes,
    }
}

fn library_episode(tmdb_id: Option<&str>, season_number: u32, episode_number: u32) -> LibraryEpisode {
    LibraryEpisode {
        jellyfin_id: Some(format!("opaque-{season_number}-{episode_number}")),
        tmdb_id: tmdb_id.map(str::to_owned),
        season_number,
        episode_number,
    }
}

fn actual(episodes: Vec<LibraryEpisode>) -> Option<LibrarySeason> {
    Some(LibrarySeason {
        series_id: "series-1".into(),
        episodes,
    })
}

fn compare(expected: ExpectedSeason, actual: Option<LibrarySeason>) -> SeasonAvailability {
    compare_season_availability(expected, actual, as_of()).unwrap()
}

#[test]
fn all_aired_and_announced_episodes_are_available() {
    let result = compare(
        expected(
            3,
            vec![
                episode("302", 2, Some(date(2026, 9, 1))),
                episode("301", 1, Some(date(2026, 8, 1))),
            ],
        ),
        actual(vec![
            library_episode(Some("302"), 3, 2),
            library_episode(Some("301"), 3, 1),
        ]),
    );

    assert_eq!(result.aired.status, CompletenessStatus::Complete);
    assert_eq!(result.aired.expected_count, 1);
    assert_eq!(result.aired.available_count, 1);
    assert_eq!(result.aired.missing_count, 0);
    assert_eq!(result.announced.status, CompletenessStatus::Complete);
    assert_eq!(result.announced.expected_count, 2);
    assert_eq!(result.announced.available_count, 2);
    assert_eq!(result.announced.missing_count, 0);
    assert_eq!(
        result
            .next_airing
            .as_ref()
            .map(|episode| (episode.episode_number, episode.release_status, episode.presence)),
        Some((2, EpisodeReleaseStatus::Future, EpisodePresence::Available))
    );
    assert_eq!(
        result
            .episodes
            .unwrap()
            .iter()
            .map(|episode| episode.episode_number)
            .collect::<Vec<_>>(),
        vec![1, 2]
    );
}

#[test]
fn missing_aired_episode_is_incomplete() {
    let result = compare(
        expected(3, vec![episode("301", 1, Some(date(2026, 8, 1)))]),
        actual(vec![]),
    );

    assert_eq!(result.aired.status, CompletenessStatus::Incomplete);
    assert_eq!(result.aired.expected_count, 1);
    assert_eq!(result.aired.available_count, 0);
    assert_eq!(result.aired.missing_count, 1);
    assert_eq!(result.episodes.unwrap()[0].presence, EpisodePresence::Missing);
}

#[test]
fn only_a_future_episode_missing_keeps_aired_complete() {
    let result = compare(
        expected(
            3,
            vec![
                episode("301", 1, Some(date(2026, 8, 1))),
                episode("302", 2, Some(date(2026, 9, 1))),
            ],
        ),
        actual(vec![library_episode(Some("301"), 3, 1)]),
    );

    assert_eq!(result.aired.status, CompletenessStatus::Complete);
    assert_eq!(result.aired.missing_count, 0);
    assert_eq!(result.announced.status, CompletenessStatus::Incomplete);
    assert_eq!(result.announced.expected_count, 2);
    assert_eq!(result.announced.available_count, 1);
    assert_eq!(result.announced.missing_count, 1);
}

#[test]
fn missing_unknown_date_episode_makes_aired_status_unknown() {
    let result = compare(
        expected(
            3,
            vec![episode("301", 1, Some(date(2026, 8, 1))), episode("302", 2, None)],
        ),
        actual(vec![library_episode(Some("301"), 3, 1)]),
    );

    assert_eq!(result.aired.status, CompletenessStatus::Unknown);
    assert_eq!(result.aired.expected_count, 1);
    assert_eq!(result.aired.available_count, 1);
    assert_eq!(result.aired.missing_count, 0);
    assert_eq!(result.announced.status, CompletenessStatus::Incomplete);
    assert_eq!(result.unknown_air_date_count, 1);
}

#[test]
fn missing_aired_episode_takes_precedence_over_missing_unknown_date_episode() {
    let result = compare(
        expected(
            3,
            vec![episode("301", 1, Some(date(2026, 8, 1))), episode("302", 2, None)],
        ),
        actual(vec![]),
    );

    assert_eq!(result.aired.status, CompletenessStatus::Incomplete);
    assert_eq!(result.aired.expected_count, 1);
    assert_eq!(result.aired.available_count, 0);
    assert_eq!(result.aired.missing_count, 1);
    assert_eq!(result.unknown_air_date_count, 1);
    assert_eq!(result.announced.missing_count, 2);
}

#[test]
fn available_unknown_date_episode_does_not_make_aired_status_unknown() {
    let result = compare(
        expected(3, vec![episode("301", 1, None)]),
        actual(vec![library_episode(Some("301"), 3, 1)]),
    );

    assert_eq!(result.aired.status, CompletenessStatus::Complete);
    assert_eq!(result.aired.expected_count, 0);
    assert_eq!(result.aired.available_count, 0);
    assert_eq!(result.aired.missing_count, 0);
    assert_eq!(result.announced.status, CompletenessStatus::Complete);
    assert_eq!(result.unknown_air_date_count, 1);
}

#[test]
fn absent_series_is_compact_and_preserves_next_airing() {
    let result = compare(
        expected(
            3,
            vec![
                episode("301", 1, Some(date(2026, 8, 1))),
                episode("302", 2, Some(date(2026, 9, 1))),
            ],
        ),
        None,
    );

    assert!(!result.in_library);
    assert_eq!(result.series.media_id, "60625");
    assert_eq!(result.series.jellyfin_id, None);
    assert_eq!(result.episodes, None);
    assert_eq!(result.aired.available_count, 0);
    assert_eq!(result.announced.available_count, 0);
    assert_eq!(
        result
            .next_airing
            .as_ref()
            .map(|episode| (episode.episode_number, episode.presence, episode.release_status)),
        Some((2, EpisodePresence::Missing, EpisodeReleaseStatus::Future))
    );
}

#[test]
fn season_zero_is_retained() {
    let result = compare(expected(0, vec![]), actual(vec![]));

    assert_eq!(result.season, 0);
}

#[test]
fn exact_tmdb_provider_match_wins_before_an_eligible_number_fallback() {
    let error = compare_season_availability(
        expected(
            3,
            vec![
                episode("301", 1, Some(date(2026, 8, 1))),
                episode("", 2, Some(date(2026, 8, 2))),
            ],
        ),
        actual(vec![library_episode(Some("301"), 3, 2), library_episode(None, 3, 1)]),
        as_of(),
    )
    .unwrap_err();

    assert!(matches!(error, MediaError::Conflict));
}

#[test]
fn number_fallback_works_when_either_side_lacks_a_tmdb_id() {
    let result = compare(
        expected(
            3,
            vec![
                episode("", 1, Some(date(2026, 8, 1))),
                episode("302", 2, Some(date(2026, 8, 2))),
            ],
        ),
        actual(vec![
            library_episode(Some("different"), 3, 1),
            library_episode(None, 3, 2),
        ]),
    );

    assert!(result
        .episodes
        .unwrap()
        .iter()
        .all(|episode| episode.presence == EpisodePresence::Available));
}

#[test]
fn duplicate_expected_tmdb_ids_conflict() {
    let error = compare_season_availability(
        expected(
            3,
            vec![
                episode("301", 1, Some(date(2026, 8, 1))),
                episode("301", 2, Some(date(2026, 8, 2))),
            ],
        ),
        actual(vec![]),
        as_of(),
    )
    .unwrap_err();

    assert!(matches!(error, MediaError::Conflict));
}

#[test]
fn duplicate_actual_tmdb_ids_conflict() {
    let error = compare_season_availability(
        expected(3, vec![episode("301", 1, Some(date(2026, 8, 1)))]),
        actual(vec![
            library_episode(Some("301"), 3, 1),
            library_episode(Some("301"), 3, 2),
        ]),
        as_of(),
    )
    .unwrap_err();

    assert!(matches!(error, MediaError::Conflict));
}

#[test]
fn duplicate_number_fallback_candidates_conflict() {
    let error = compare_season_availability(
        expected(3, vec![episode("301", 1, Some(date(2026, 8, 1)))]),
        actual(vec![library_episode(None, 3, 1), library_episode(None, 3, 1)]),
        as_of(),
    )
    .unwrap_err();

    assert!(matches!(error, MediaError::Conflict));
}

#[test]
fn one_actual_record_cannot_satisfy_two_expected_records() {
    let error = compare_season_availability(
        expected(
            3,
            vec![
                episode("301", 1, Some(date(2026, 8, 1))),
                episode("", 2, Some(date(2026, 8, 2))),
            ],
        ),
        actual(vec![library_episode(Some("301"), 3, 2)]),
        as_of(),
    )
    .unwrap_err();

    assert!(matches!(error, MediaError::Conflict));
}

#[test]
fn extra_jellyfin_episodes_are_ignored() {
    let result = compare(
        expected(3, vec![episode("301", 1, Some(date(2026, 8, 1)))]),
        actual(vec![
            library_episode(Some("301"), 3, 1),
            library_episode(Some("999"), 3, 99),
        ]),
    );

    let episodes = result.episodes.unwrap();
    assert_eq!(episodes.len(), 1);
    assert_eq!(episodes[0].episode_id, "301");
}

#[test]
fn equal_date_next_airings_use_episode_number_as_tie_break() {
    let result = compare(
        expected(
            3,
            vec![
                episode("302", 2, Some(date(2026, 9, 1))),
                episode("301", 1, Some(date(2026, 9, 1))),
            ],
        ),
        actual(vec![]),
    );

    assert_eq!(result.next_airing.unwrap().episode_number, 1);
}

#[test]
fn air_date_equal_to_as_of_is_aired() {
    let result = compare(expected(3, vec![episode("301", 1, Some(as_of()))]), actual(vec![]));

    let episode = &result.episodes.unwrap()[0];
    assert_eq!(episode.release_status, EpisodeReleaseStatus::Aired);
    assert_eq!(result.aired.expected_count, 1);
    assert_eq!(result.aired.missing_count, 1);
}

#[test]
fn empty_expected_season_has_complete_zero_count_summaries() {
    let result = compare(expected(3, vec![]), actual(vec![]));

    assert!(result.in_library);
    assert_eq!(result.episodes, Some(vec![]));
    assert_eq!(result.aired.status, CompletenessStatus::Complete);
    assert_eq!(result.aired.expected_count, 0);
    assert_eq!(result.aired.available_count, 0);
    assert_eq!(result.aired.missing_count, 0);
    assert_eq!(result.announced.status, CompletenessStatus::Complete);
    assert_eq!(result.announced.expected_count, 0);
    assert_eq!(result.announced.available_count, 0);
    assert_eq!(result.announced.missing_count, 0);
}

#[test]
fn oversized_count_takes_the_internal_error_path() {
    assert!(matches!(checked_count(usize::MAX), Err(MediaError::Internal)));
}

#[test]
fn duplicate_expected_episode_numbers_conflict() {
    let error = compare_season_availability(
        expected(3, vec![episode("301", 1, None), episode("", 1, None)]),
        None,
        as_of(),
    )
    .unwrap_err();
    assert!(matches!(error, MediaError::Conflict));
}

#[test]
fn blank_provider_ids_do_not_clash() {
    let result = compare(
        expected(3, vec![episode("  ", 1, None), episode("", 2, None)]),
        actual(vec![library_episode(Some(" "), 3, 1), library_episode(Some(""), 3, 2)]),
    );
    assert_eq!(result.announced.available_count, 2);
    assert_eq!(result.series.jellyfin_id.as_deref(), Some("series-1"));
}

#[test]
fn provider_id_is_only_taken_when_not_blank() {
    assert_eq!(nonempty_tmdb_id(" \t"), None);
    assert_eq!(nonempty_tmdb_id(" 42 "), Some(" 42 "));
}

#[test]
fn summary_rejects_more_present_than_expected() {
    assert!(matches!(
        summary(CompletenessStatus::Complete, 1, 2),
        Err(MediaError::Internal)
    ));
    let ok = summary(CompletenessStatus::Incomplete, 5, 3).unwrap();
    assert_eq!((ok.expected_count, ok.available_count, ok.missing_count), (5, 3, 2));
    assert_eq!(checked_count(7).unwrap(), 7);
}

#[test]
fn summary_counts_balance_on_a_mixed_season() {
    let result = compare(
        expected(
            1,
            vec![
                episode("a", 1, Some(date(2025, 1, 1))),
                episode("b", 2, Some(date(2026, 12, 31))),
                episode("c", 3, None),
                episode("d", 4, Some(date(2026, 1, 1))),
            ],
        ),
        actual(vec![library_episode(Some("a"), 1, 1), library_episode(None, 1, 3)]),
    );
    assert_eq!(
        result.aired.missing_count + result.aired.available_count,
        result.aired.expected_count
    );
    assert_eq!(result.aired.expected_count, 2);
    assert_eq!(result.aired.available_count, 1);
    assert_eq!(result.aired.status, CompletenessStatus::Incomplete);
    assert_eq!(result.announced.available_count, 2);
    assert!(result.announced.available_count as usize <= 2);
    assert_eq!(result.next_airing.unwrap().episode_number, 2);
}
