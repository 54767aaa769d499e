use exchange_backend::stories::dirty_work::{self, FARHANA_LINE, KAMAL_LINE, Outcome, REHANA_LINE, TARIQ_LINE};
use exchange_backend::stories::nahid::{self, report_succeeded};
use exchange_backend::stories::shapla_apartments::{Beat, Classification, next_beat};

#[test]
fn calls_progress_through_the_three_bagha_news_contacts() {
    assert_eq!(
        dirty_work::next_beat_after_connection(dirty_work::Beat::MundaneCall, KAMAL_LINE, FARHANA_LINE),
        Some(dirty_work::Beat::WhistleblowerLeak)
    );
    assert_eq!(
        dirty_work::next_beat_after_connection(dirty_work::Beat::WhistleblowerLeak, TARIQ_LINE, FARHANA_LINE),
        Some(dirty_work::Beat::SubscriberCall)
    );
    assert_eq!(
        dirty_work::next_beat_after_connection(dirty_work::Beat::SubscriberCall, REHANA_LINE, FARHANA_LINE),
        Some(dirty_work::Beat::Interrogation)
    );
}

#[test]
fn outcome_classification_selects_an_ending_beat() {
    assert_eq!(Outcome::parse("good").beat(), dirty_work::Beat::GoodEnding);
    assert_eq!(Outcome::parse("neutral").beat(), dirty_work::Beat::NeutralEnding);
    assert_eq!(Outcome::parse("bad").beat(), dirty_work::Beat::BadEnding);
}

#[test]
fn only_success_classification_stops_nahid() {
    assert!(report_succeeded("success"));
    assert!(!report_succeeded("failure"));
    assert!(!nahid::Beat::Scamming.is_terminal());
    assert!(nahid::Beat::Stopped.is_terminal());
}

#[test]
fn police_wins_when_both_service_buttons_are_held() {
    assert_eq!(
        next_beat(Beat::EmergencyCall, Classification::Success, true, true),
        Some(Beat::NeutralFollowup)
    );
}

#[test]
fn ems_requires_a_classified_ems_request() {
    assert_eq!(
        next_beat(Beat::EmergencyCall, Classification::Success, false, true),
        Some(Beat::HappyFollowup)
    );
    assert_eq!(
        next_beat(Beat::EmergencyCall, Classification::Failure, false, true),
        Some(Beat::BadFollowup)
    );
}

use exchange_backend::stories::authored_audio_path;
use exchange_backend::stories::bela_bose::{self, BELA_CAT_DIRECTORY, BELA_DOG_DIRECTORY, NEEL_DIRECTORY, SHADHIN_DIRECTORY};
use exchange_backend::stories::neel_university;

#[test]
fn classifications_ignore_case_and_surrounding_space() {
    assert_eq!(Outcome::parse("  GOOD\n"), Outcome::Good);
    assert_eq!(Outcome::parse("Neutral"), Outcome::Neutral);
    assert_eq!(Outcome::parse("great"), Outcome::Bad);
    assert_eq!(Outcome::parse("good").as_str(), "good");
    assert!(report_succeeded(" Success "));
    assert!(!report_succeeded("succeeded"));
    assert_eq!(Classification::parse("\tSUCCESS"), Classification::Success);
    assert_eq!(Classification::parse("maybe"), Classification::Failure);
}

#[test]
fn bela_bose_moves_on_only_through_authored_connections() {
    assert_eq!(
        bela_bose::next_beat_after_directory_connection(bela_bose::Beat::ProfessorRouting, NEEL_DIRECTORY, SHADHIN_DIRECTORY),
        Some(bela_bose::Beat::ArnabDirectory)
    );
    assert_eq!(
        bela_bose::next_beat_after_directory_connection(bela_bose::Beat::ArnabDirectory, SHADHIN_DIRECTORY, BELA_CAT_DIRECTORY),
        Some(bela_bose::Beat::Completed)
    );
    assert_eq!(
        bela_bose::next_beat_after_directory_connection(bela_bose::Beat::ArnabDirectory, SHADHIN_DIRECTORY, BELA_DOG_DIRECTORY),
        Some(bela_bose::Beat::BadEnding)
    );
    assert_eq!(
        bela_bose::next_beat_after_directory_connection(bela_bose::Beat::ProfessorRouting, SHADHIN_DIRECTORY, BELA_CAT_DIRECTORY),
        None
    );
    assert!(bela_bose::is_terminal(bela_bose::Beat::Completed));
    assert!(!bela_bose::is_terminal(bela_bose::Beat::ArnabDirectory));
    assert_eq!(bela_bose::caller_directory_for_beat(bela_bose::Beat::ProfessorRouting), NEEL_DIRECTORY);
}

#[test]
fn recordings_are_found_under_their_story() {
    assert_eq!(
        bela_bose::audio_path(1023, 1024).unwrap(),
        "assets/stories/bela_bose/professor_arnab.wav"
    );
    assert_eq!(
        nahid::audio_path(1030, 1029).unwrap(),
        "assets/stories/nahid/nahid_10.wav"
    );
    assert_eq!(nahid::audio_path(1030, 1021).unwrap(), "assets/stories/nahid/nahid_0.wav");
    assert_eq!(nahid::audio_path(1029, 1021), None);
    assert_eq!(nahid::audio_path(1030, 1023), None);
    assert_eq!(
        neel_university::audio_path(3, 5).unwrap(),
        "assets/stories/neel_university/belabose_success.m4a"
    );
    assert_eq!(neel_university::audio_path(5, 3), None);
}

#[test]
fn authored_recordings_come_from_bela_bose_then_nahid() {
    assert_eq!(
        authored_audio_path(1024, 1032).unwrap(),
        "assets/stories/bela_bose/belabose_success.wav"
    );
    assert_eq!(authored_audio_path(1030, 1032).unwrap(), "assets/stories/nahid/nahid_5.wav");
    assert_eq!(authored_audio_path(1023, 1030), None);
}
