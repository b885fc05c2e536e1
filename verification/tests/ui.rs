use buoyant::app::{Entry, Property};
use buoyant::file::icons::IconKind;
use buoyant::ui::{self, MetadataLine};

const NOW: i64 = 1_700_000_000; // 2023-11-14 22:13:20 UTC
const DAY: i64 = 86_400;

fn entry(folder_size: Option<usize>, file_size: Option<u64>, accessed: Option<i64>, created: Option<i64>) -> Entry {
    Entry {
        name: String::from("a"),
        file_type: "Text File",
        file_icon: IconKind::File,
        path: String::from("/x/a"),
        using: true,
        is_hidden: false,
        accessed,
        created,
        file_size,
        folder_size,
    }
}

#[test]
fn sizes_in_powers_of_ten() {
    assert_eq!(ui::bytes_to_string(0), "0 bytes");
    assert_eq!(ui::bytes_to_string(999), "999 bytes");
    assert_eq!(ui::bytes_to_string(1000), "1KiB");
    assert_eq!(ui::bytes_to_string(1_500), "1KiB");
    assert_eq!(ui::bytes_to_string(1_500_000), "1MiB");
    assert_eq!(ui::bytes_to_string(2_000_000_000), "2GiB");
    assert_eq!(ui::bytes_to_string(3_999_999_999_999), "3TiB");
    assert_eq!(ui::bytes_to_string(u64::MAX), "18446744TiB");
}

#[test]
fn signed_numbers() {
    assert_eq!(ui::signed_decimal(-42), "-42");
    assert_eq!(ui::signed_decimal(0), "0");
    assert_eq!(ui::signed_decimal(i64::MIN), "-9223372036854775808");
    assert_eq!(ui::signed_decimal(i64::MAX), "9223372036854775807");
}

#[test]
fn dates_relative_to_now() {
    assert_eq!(ui::format_date(NOW, Some(NOW - 3600)), "Today, 09:13 PM");
    assert_eq!(ui::format_date(NOW, Some(NOW - DAY)), "Yesterday, 10:13 PM");
    assert_eq!(ui::format_date(NOW, Some(NOW - 23 * 3600)), "Yesterday, 11:13 PM");
    assert_eq!(ui::format_date(NOW, Some(NOW - 3 * DAY)), "3 days ago");
    assert_eq!(ui::format_date(NOW, Some(NOW - 7 * DAY)), "7 days ago");
    assert_eq!(ui::format_date(NOW, Some(NOW - 10 * DAY)), "Last week");
    assert_eq!(ui::format_date(NOW, Some(NOW - 20 * DAY)), "2 weeks ago");
    assert_eq!(ui::format_date(NOW, Some(NOW - 40 * DAY)), "Last month");
    assert_eq!(ui::format_date(NOW, Some(NOW - 100 * DAY)), "3 months ago");
    assert_eq!(ui::format_date(NOW, Some(NOW - 400 * DAY)), "Last year");
    assert_eq!(ui::format_date(NOW, Some(NOW - 800 * DAY)), "2 years ago");
}

#[test]
fn missing_future_and_impossible_dates() {
    assert_eq!(ui::format_date(NOW, None), "53 years ago");
    assert_eq!(ui::format_date(NOW, Some(NOW + 3600)), "Today, 11:13 PM");
    assert_eq!(ui::format_date(NOW, Some(i64::MAX)), "53 years ago");
}

#[test]
fn cells_of_the_listing() {
    let folder = entry(Some(3), None, None, None);
    let file = entry(None, Some(2048), Some(NOW - 3 * DAY), None);
    let unknown = entry(None, None, None, None);
    assert_eq!(ui::cell_text(&folder, &Property::Size, NOW), "3 items");
    assert_eq!(ui::cell_text(&file, &Property::Size, NOW), "2KiB");
    assert_eq!(ui::cell_text(&unknown, &Property::Size, NOW), "0 bytes");
    assert_eq!(ui::cell_text(&file, &Property::Accessed, NOW), "3 days ago");
    assert_eq!(ui::cell_text(&file, &Property::Name, NOW), "a");
    assert_eq!(ui::cell_text(&file, &Property::Type, NOW), "Text File");
    assert_eq!(ui::cell_text(&file, &Property::Path, NOW), "/x/a");
}

#[test]
fn lines_of_the_metadata_window() {
    let folder = entry(Some(3), None, None, Some(5));
    let file = entry(None, Some(2048), None, None);
    assert_eq!(ui::metadata_line(&file, &Property::Path), MetadataLine::Text(String::from("full path: /x/a")));
    assert_eq!(ui::metadata_line(&file, &Property::Type), MetadataLine::Text(String::from("type: Text File")));
    assert_eq!(ui::metadata_line(&folder, &Property::Size), MetadataLine::Text(String::from("folder size: 3 items")));
    assert_eq!(ui::metadata_line(&file, &Property::Size), MetadataLine::Text(String::from("file size: 2KiB")));
    assert_eq!(ui::metadata_line(&file, &Property::Accessed), MetadataLine::Date("last accessed date: ", 0));
    assert_eq!(ui::metadata_line(&folder, &Property::Created), MetadataLine::Date("created date: ", 5));
    assert_eq!(ui::metadata_line(&file, &Property::Name), MetadataLine::Nothing);
}

#[test]
fn relative_dates_from_their_parts() {
    assert_eq!(ui::relative_date(NOW, NOW - 3600, true, "09:13 PM"), "Today, 09:13 PM");
    assert_eq!(ui::relative_date(NOW, NOW - 3600, false, "09:13 PM"), "Yesterday, 09:13 PM");
    assert_eq!(ui::relative_date(NOW, NOW - 3 * DAY, true, "x"), "3 days ago");
    assert_eq!(ui::relative_date(NOW, NOW + 5 * DAY, false, "c"), "Yesterday, c");
    assert_eq!(ui::relative_date(NOW, NOW - 59 * 60 - 23 * 3600, true, "c"), "Today, c");
    assert_eq!(ui::relative_date(i64::MAX, i64::MIN, false, ""), "584942417355 years ago");
}

#[test]
fn clock_uses_twelve_hours() {
    let midnight: i64 = 1_700_000_000 - 1_700_000_000 % 86_400;
    assert_eq!(ui::format_date(midnight + 300, Some(midnight + 300)), "Today, 12:05 AM");
    assert_eq!(ui::format_date(midnight + 12 * 3600, Some(midnight + 12 * 3600 + 59)), "Today, 12:00 PM");
    assert_eq!(ui::format_date(midnight + 13 * 3600 + 600, Some(midnight + 13 * 3600 + 540)), "Today, 01:09 PM");
}
