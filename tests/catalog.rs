use soundboard::catalog::{autocomplete_query, delete_params, increment_params, names_of, pin_params};
use soundboard::paginator::count_of_rows;
use soundboard::store::{SqlParam, SqlValue};
use soundboard::display::make_display_message;
use r2d2_sqlite::SqliteConnectionManager;
use soundboard::audio::AudioFile;
use soundboard::catalog::{
    fts_phrase, AudioTable, AudioTableOrderBy, AudioTableRowInsert, AudioTableRowInsertBuilder,
    Order, UniqueAudioTableCol,
};
use soundboard::normalize::Tags;
use soundboard::codec::DisplayType;
use soundboard::paginator::{AudioTablePaginator, AudioTablePaginatorBuilder};
use soundboard::store::StoreError;

type Pool = r2d2::Pool<SqliteConnectionManager>;

fn memory_pool() -> Pool {
    r2d2::Pool::new(SqliteConnectionManager::memory()).unwrap()
}

fn uuid_v4_str() -> String {
    uuid::Uuid::new_v4().to_string()
}

fn make_audio_table_row_insert() -> AudioTableRowInsert {
    let name = format!("{}{}", uuid_v4_str(), "#!@#$%^&*()_-+=?/.\"\\'");
    let audio_file = AudioFile::new(format!("/tmp/{}.mp3", uuid_v4_str()));
    AudioTableRowInsertBuilder::new(&name, audio_file)
        .tags(Tags::from_text(&uuid_v4_str()))
        .build()
}

fn make_detailed_audio_table_row_insert(name: &str, tags: &str) -> AudioTableRowInsert {
    let mut row = make_audio_table_row_insert();
    row.name = name.to_string();
    row.tags = Tags::from_text(tags);
    row
}

#[test]
fn audio_table_create_test() {
    let pool = memory_pool();
    let conn = pool.get().unwrap();
    let table = AudioTable::new(&conn);
    table.create_table().unwrap();
    table.create_table().unwrap();
}

#[test]
fn audio_table_table_create_test() {
    let pool = memory_pool();
    let conn = pool.get().unwrap();
    let table = AudioTable::new(&conn);
    table.create_table().unwrap();
    table.create_table().unwrap();
}

#[test]
fn audio_table_drop_test() {
    let pool = memory_pool();
    let conn = pool.get().unwrap();
    let table = AudioTable::new(&conn);
    table.drop_table().unwrap();
    table.create_table().unwrap();
    table.drop_table().unwrap();
}

#[test]
fn audio_table_insert_row_test() {
    let pool = memory_pool();
    let conn = pool.get().unwrap();
    let table = AudioTable::new(&conn);
    table.create_table().unwrap();
    table.insert_audio_row(&make_audio_table_row_insert()).unwrap();
}

#[test]
fn table_insert_row_test() {
    let pool = memory_pool();
    let conn = pool.get().unwrap();
    let table = AudioTable::new(&conn);
    table.create_table().unwrap();
    table.insert_audio_row(&make_audio_table_row_insert()).unwrap();
}

#[test]
fn audio_table_get_row_test() {
    let pool = memory_pool();
    let conn = pool.get().unwrap();
    let table = AudioTable::new(&conn);
    table.create_table().unwrap();
    let mut row_insert = make_audio_table_row_insert();
    row_insert.name = "Test".into();
    table.insert_audio_row(&row_insert).unwrap();
    let row = table.find_audio_row(&UniqueAudioTableCol::Name("Test".into()));
    let row = row.unwrap();
    assert_eq!(row.name, "Test".to_string());
}

#[test]
fn table_find_row_test() {
    let pool = memory_pool();
    let conn = pool.get().unwrap();
    let table = AudioTable::new(&conn);
    table.create_table().unwrap();
    let row_insert = make_audio_table_row_insert();
    table.insert_audio_row(&row_insert).unwrap();
    let row = table.find_audio_row(&UniqueAudioTableCol::Name(row_insert.name.clone()));
    let row = row.unwrap();
    assert_eq!(row.name, row_insert.name);
}

#[test]
fn table_update_row_test() {
    let pool = memory_pool();
    let conn = pool.get().unwrap();
    let table = AudioTable::new(&conn);
    table.create_table().unwrap();
    let row_insert = make_audio_table_row_insert();
    table.insert_audio_row(&row_insert).unwrap();
    let mut row = table
        .find_audio_row(&UniqueAudioTableCol::Name(row_insert.name.clone()))
        .unwrap();
    let new_name = String::from("New Name");
    row.name = new_name.clone();
    table.update_audio_row(&row).unwrap();
    let old_row = table.find_audio_row(&UniqueAudioTableCol::Name(row_insert.name.clone()));
    assert!(old_row.is_none());
    let updated_row = table
        .find_audio_row(&UniqueAudioTableCol::Name(new_name.clone()))
        .unwrap();
    assert_eq!(updated_row.name, new_name);
}

#[test]
fn table_autocomplete_track_names_test() {
    let pool = memory_pool();
    let conn = pool.get().unwrap();
    let table = AudioTable::new(&conn);
    table.create_table().unwrap();

    let mut row_insert = make_audio_table_row_insert();
    row_insert.name = "Beep Boop".into();
    row_insert.tags = Tags::from_text("r2d2 star wars droid");
    table.insert_audio_row(&row_insert).unwrap();

    let mut row_insert = make_audio_table_row_insert();
    row_insert.name = "Beep Bop".into();
    row_insert.tags = Tags::from_text("gonk star wars droid");
    table.insert_audio_row(&row_insert).unwrap();

    let mut row_insert = make_audio_table_row_insert();
    row_insert.name = "Beez's Biz".into();
    row_insert.tags = Tags::from_text("random sound-effect");
    table.insert_audio_row(&row_insert).unwrap();

    let results = table.fts_autocomplete_track_names("bee", None);
    assert_eq!(3, results.len());

    let results = table.fts_autocomplete_track_names("bee", Some(2));
    assert_eq!(2, results.len());

    let results = table.fts_autocomplete_track_names("r2d2", None);
    assert_eq!("Beep Boop", results[0]);

    let results = table.fts_autocomplete_track_names("droid", None);
    assert_eq!(2, results.len());
    assert_eq!("Beep Boop", results[0]);
    assert_eq!("Beep Bop", results[1]);

    let results = table.fts_autocomplete_track_names("RaN", None);
    assert_eq!("Beez's Biz", results[0]);
}

#[test]
fn autocomplete_short_text_lists_latest() {
    let pool = memory_pool();
    let conn = pool.get().unwrap();
    let table = AudioTable::new(&conn);
    table.create_table().unwrap();
    for (i, name) in ["one", "two", "three"].iter().enumerate() {
        let row = AudioTableRowInsertBuilder::new(name, AudioFile::new(format!("/tmp/{name}.mp3")))
            .created_at(1000 + i as i64)
            .build();
        table.insert_audio_row(&row).unwrap();
    }
    assert_eq!(table.fts_autocomplete_track_names("zz", Some(2)), vec!["three", "two"]);
    assert_eq!(table.fts_autocomplete_track_names("", None).len(), 3);
}

#[test]
fn duplicate_names_are_refused() {
    let pool = memory_pool();
    let conn = pool.get().unwrap();
    let table = AudioTable::new(&conn);
    table.create_table().unwrap();
    let first = make_detailed_audio_table_row_insert("same", "");
    table.insert_audio_row(&first).unwrap();
    let second = make_detailed_audio_table_row_insert("same", "");
    assert!(matches!(table.insert_audio_row(&second), Err(StoreError::Duplicate(_))));
    let mut third = make_audio_table_row_insert();
    third.audio_file = first.audio_file.clone();
    assert!(matches!(table.insert_audio_row(&third), Err(StoreError::Duplicate(_))));
    let mut fourth = make_audio_table_row_insert();
    fourth.author_id = Some(u64::MAX);
    assert!(matches!(table.insert_audio_row(&fourth), Err(StoreError::Failed(_))));
}

#[test]
fn rows_read_back_whole() {
    let pool = memory_pool();
    let conn = pool.get().unwrap();
    let table = AudioTable::new(&conn);
    table.create_table().unwrap();
    let row = AudioTableRowInsertBuilder::new("Hello There", AudioFile::new("/tmp/kenobi.mp3".into()))
        .tags(Tags::from_text("star wars"))
        .author_id(Some(77))
        .author_name(Some("ben".into()))
        .author_global_name(None)
        .build();
    assert!(row.created_at > 0);
    table.insert_audio_row(&row).unwrap();
    let found = table
        .find_audio_row(&UniqueAudioTableCol::AudioFile("/tmp/kenobi.mp3".into()))
        .unwrap();
    assert_eq!(found.name, "Hello There");
    assert_eq!(found.tags.inner(), &vec!["star", "wars"]);
    assert_eq!(found.author_id, Some(77));
    assert_eq!(found.author_name, Some("ben".to_string()));
    assert_eq!(found.author_global_name, None);
    assert_eq!(found.play_count, 0);
    assert_eq!(found.last_played_at, None);
    assert!(!found.pinned);
    assert_eq!(found.created_at, row.created_at);
    let by_id = table.find_audio_row(&UniqueAudioTableCol::Id(found.id)).unwrap();
    assert_eq!(by_id, found);
    assert!(table.find_audio_row(&UniqueAudioTableCol::Id(found.id + 1)).is_none());
    assert_eq!(UniqueAudioTableCol::Id(-12).value(), "-12");
    assert_eq!(UniqueAudioTableCol::Name("n".into()).sql_condition(), "name = ?1");
}

#[test]
fn play_count_increments_and_stamps() {
    let pool = memory_pool();
    let conn = pool.get().unwrap();
    let table = AudioTable::new(&conn);
    table.create_table().unwrap();
    table.insert_audio_row(&make_detailed_audio_table_row_insert("played", "")).unwrap();
    let id = table.find_audio_row(&UniqueAudioTableCol::Name("played".into())).unwrap().id;
    table.increment_play_count(id).unwrap();
    table.increment_play_count(id).unwrap();
    let row = table.find_audio_row(&UniqueAudioTableCol::Id(id)).unwrap();
    assert_eq!(row.play_count, 2);
    assert!(row.last_played_at.is_some());
}

#[test]
fn concurrent_increments_are_all_counted() {
    let path = format!("/tmp/soundboard-{}.db3", uuid_v4_str());
    let pool: Pool = r2d2::Pool::new(SqliteConnectionManager::file(&path)).unwrap();
    let id = {
        let conn = pool.get().unwrap();
        let table = AudioTable::new(&conn);
        table.create_table().unwrap();
        table.insert_audio_row(&make_detailed_audio_table_row_insert("busy", "")).unwrap();
        table.find_audio_row(&UniqueAudioTableCol::Name("busy".into())).unwrap().id
    };
    let n: i64 = 16;
    let rt = tokio::runtime::Builder::new_multi_thread()
        .worker_threads(4)
        .build()
        .unwrap();
    rt.block_on(async {
        let mut handles = Vec::new();
        for _ in 0..n {
            let pool = pool.clone();
            handles.push(tokio::task::spawn_blocking(move || {
                let conn = pool.get().unwrap();
                AudioTable::new(&conn).increment_play_count(id).unwrap();
            }));
        }
        for h in handles {
            h.await.unwrap();
        }
    });
    let conn = pool.get().unwrap();
    let row = AudioTable::new(&conn).find_audio_row(&UniqueAudioTableCol::Id(id)).unwrap();
    assert_eq!(row.play_count, n);
}

#[test]
fn delete_removes_row_and_search_entry() {
    let pool = memory_pool();
    let conn = pool.get().unwrap();
    let table = AudioTable::new(&conn);
    table.create_table().unwrap();
    table
        .insert_audio_row(&make_detailed_audio_table_row_insert("obsolete jingle", "old"))
        .unwrap();
    let removed = table
        .delete_audio_row(&UniqueAudioTableCol::Name("obsolete jingle".into()))
        .unwrap()
        .unwrap();
    assert_eq!(removed.name, "obsolete jingle");
    assert!(table.find_audio_row(&UniqueAudioTableCol::Name("obsolete jingle".into())).is_none());
    let mut paginator = AudioTablePaginator::builder(&conn)
        .fts_filter(Some("obsolete jingle".into()))
        .build();
    assert_eq!(paginator.row_count().unwrap(), 0);
    assert!(paginator.next().is_none());
    assert!(table.fts_autocomplete_track_names("obsolete", None).is_empty());
    let again = table.delete_audio_row(&UniqueAudioTableCol::Name("obsolete jingle".into()));
    assert_eq!(again, Ok(None));
}

#[test]
fn pinning_twice_keeps_the_pin() {
    let pool = memory_pool();
    let conn = pool.get().unwrap();
    let table = AudioTable::new(&conn);
    table.create_table().unwrap();
    table.insert_audio_row(&make_detailed_audio_table_row_insert("favourite", "")).unwrap();
    table.update_audio_row_pin_by_name("favourite", true).unwrap();
    table.update_audio_row_pin_by_name("favourite", true).unwrap();
    let row = table.find_audio_row(&UniqueAudioTableCol::Name("favourite".into())).unwrap();
    assert!(row.pinned);
    table.update_audio_row_pin_by_name("favourite", false).unwrap();
    let row = table.find_audio_row(&UniqueAudioTableCol::Name("favourite".into())).unwrap();
    assert!(!row.pinned);
}

#[test]
fn random_row_of_empty_and_full_catalog() {
    let pool = memory_pool();
    let conn = pool.get().unwrap();
    let table = AudioTable::new(&conn);
    table.create_table().unwrap();
    assert_eq!(table.get_random_row(), Ok(None));
    table.insert_audio_row(&make_detailed_audio_table_row_insert("only", "")).unwrap();
    assert_eq!(table.get_random_row().unwrap().unwrap().name, "only");
}

#[test]
fn fts_phrase_escapes_quotes() {
    assert_eq!(fts_phrase("star"), "\"star\"");
    assert_eq!(fts_phrase("a\"b"), "\"a\"\"b\"");
    assert_eq!(AudioTableOrderBy::PlayCount(Order::Desc).to_sql_str(), "play_count DESC");
    assert_eq!(
        AudioTableOrderBy::Name(Order::Asc).inverse_order(),
        AudioTableOrderBy::Name(Order::Desc)
    );
}

#[test]
fn db_audio_table_pagination_test() {
    let pool = memory_pool();
    let conn = pool.get().unwrap();
    let table = AudioTable::new(&conn);
    table.create_table().unwrap();
    for _ in 0..3 {
        table.insert_audio_row(&make_audio_table_row_insert()).unwrap();
    }
    let conn2 = pool.get().unwrap();
    let mut paginator = AudioTablePaginator::builder(&conn2).page_limit(2).build();
    let page = paginator.next().unwrap().unwrap();
    assert_eq!(page.len(), 2);
    let page = paginator.next().unwrap().unwrap();
    assert_eq!(page.len(), 1);
    let page = paginator.next();
    assert!(page.is_none());
}

#[test]
fn paginators_audio_table_pagination_test() {
    let pool = memory_pool();
    let conn = pool.get().unwrap();
    let table = AudioTable::new(&conn);
    table.create_table().unwrap();
    for _ in 0..3 {
        table.insert_audio_row(&make_audio_table_row_insert()).unwrap();
    }
    let conn2 = pool.get().unwrap();
    let mut paginator = AudioTablePaginator::builder(&conn2).page_limit(2).build();
    assert_eq!(paginator.row_count().unwrap(), 3);
    let page = paginator.next().unwrap().unwrap();
    assert_eq!(page.len(), 2);
    let page = paginator.next().unwrap().unwrap();
    assert_eq!(page.len(), 1);
    let page = paginator.next();
    assert!(page.is_none());
}

#[test]
fn audio_table_pagination_limit_test() {
    let pool = memory_pool();
    let conn = pool.get().unwrap();
    let table = AudioTable::new(&conn);
    table.create_table().unwrap();
    for _ in 0..3 {
        table.insert_audio_row(&make_audio_table_row_insert()).unwrap();
    }
    {
        let conn2 = pool.get().unwrap();
        let mut paginator = AudioTablePaginator::builder(&conn2)
            .page_limit(1)
            .limit(Some(2))
            .build();
        assert_eq!(paginator.row_count().unwrap(), 2);
        let page = paginator.next().unwrap().unwrap();
        assert_eq!(page.len(), 1);
        let page = paginator.next().unwrap().unwrap();
        assert_eq!(page.len(), 1);
        let page = paginator.next();
        assert!(page.is_none());
    }
    {
        let conn2 = pool.get().unwrap();
        let mut paginator = AudioTablePaginator::builder(&conn2)
            .page_limit(5)
            .limit(Some(3))
            .build();
        assert_eq!(paginator.row_count().unwrap(), 3);
        let page = paginator.next().unwrap().unwrap();
        assert_eq!(page.len(), 3);
        let page = paginator.next();
        assert!(page.is_none());
    }
}

#[test]
fn cap_of_two_gives_one_page_of_two() {
    let pool = memory_pool();
    let conn = pool.get().unwrap();
    let table = AudioTable::new(&conn);
    table.create_table().unwrap();
    for _ in 0..3 {
        table.insert_audio_row(&make_audio_table_row_insert()).unwrap();
    }
    let mut paginator = AudioTablePaginator::builder(&conn)
        .page_limit(5)
        .limit(Some(2))
        .build();
    assert_eq!(paginator.row_count().unwrap(), 2);
    assert_eq!(paginator.next().unwrap().unwrap().len(), 2);
    assert!(paginator.next().is_none());
    assert_eq!(paginator.offset, 2);
}

#[test]
fn audio_table_fts_pagination_test() {
    let pool = memory_pool();
    let conn = pool.get().unwrap();
    let table = AudioTable::new(&conn);
    table.create_table().unwrap();
    table
        .insert_audio_row(&make_detailed_audio_table_row_insert("star wars obi wan", ""))
        .unwrap();
    table
        .insert_audio_row(&make_detailed_audio_table_row_insert("han solo", "star wars"))
        .unwrap();
    table
        .insert_audio_row(&make_detailed_audio_table_row_insert("i'll be back", "terminator two"))
        .unwrap();
    {
        let conn2 = pool.get().unwrap();
        let mut paginator = AudioTablePaginator::builder(&conn2)
            .page_limit(2)
            .fts_filter(Some("star".into()))
            .build();
        assert_eq!(paginator.row_count().unwrap(), 2);
        let page = paginator.next().unwrap().unwrap();
        assert_eq!(page.len(), 2);
        assert_eq!(page[0].name, "star wars obi wan");
        assert_eq!(page[1].name, "han solo");
        let page = paginator.next();
        assert!(page.is_none());
    }
    {
        let conn2 = pool.get().unwrap();
        let mut paginator = AudioTablePaginator::builder(&conn2)
            .fts_filter(Some("asdfasdfasdfasdf".into()))
            .build();
        assert_eq!(paginator.row_count().unwrap(), 0);
        let page = paginator.next();
        assert!(page.is_none());
        paginator = AudioTablePaginator::builder(&conn2)
            .fts_filter(Some("@''\"''\"@#$%^&*()!".into()))
            .build();
        assert_eq!(paginator.row_count().unwrap(), 0);
        let page = paginator.next();
        assert!(page.is_none());
    }
}

#[test]
fn punctuation_search_is_empty_not_an_error() {
    let pool = memory_pool();
    let conn = pool.get().unwrap();
    let table = AudioTable::new(&conn);
    table.create_table().unwrap();
    table.insert_audio_row(&make_detailed_audio_table_row_insert("quote \" me", "")).unwrap();
    for text in ["@''\"''\"@#$%^&*()!", "\"", "AND OR NOT", "*", "star\" OR \"x"] {
        let mut paginator = AudioTablePaginator::builder(&conn)
            .fts_filter(Some(text.into()))
            .build();
        assert_eq!(paginator.row_count(), Ok(0));
        assert_eq!(paginator.next_page(), Ok(vec![]));
    }
}

#[test]
fn audio_table_offset_test() {
    let pool = memory_pool();
    let conn = pool.get().unwrap();
    let table = AudioTable::new(&conn);
    table.create_table().unwrap();
    for (name, tags) in [
        ("first", "tag1"),
        ("second", "tag2"),
        ("third", "tag1"),
        ("fourth", "tag2"),
        ("fifth", "tag1"),
    ] {
        table.insert_audio_row(&make_detailed_audio_table_row_insert(name, tags)).unwrap();
    }
    let conn2 = pool.get().unwrap();
    let mut paginator = AudioTablePaginator::builder(&conn2)
        .fts_filter(Some("tag1".into()))
        .page_limit(1)
        .offset(2)
        .build();
    assert_eq!(paginator.row_count().unwrap(), 3);
    let page = paginator.next().unwrap().unwrap();
    assert_eq!(page.len(), 1);
    assert_eq!(page[0].name, "fifth");
    let page = paginator.next();
    assert!(page.is_none());
}

#[test]
fn templates_sort_and_filter() {
    let pool = memory_pool();
    let conn = pool.get().unwrap();
    let table = AudioTable::new(&conn);
    table.create_table().unwrap();
    for (i, name) in ["b", "a", "c"].iter().enumerate() {
        let row = AudioTableRowInsertBuilder::new(name, AudioFile::new(format!("/tmp/t-{name}.mp3")))
            .created_at(i as i64)
            .build();
        table.insert_audio_row(&row).unwrap();
    }
    table.update_audio_row_pin_by_name("c", true).unwrap();
    table.update_audio_row_pin_by_name("a", true).unwrap();
    let id_b = table.find_audio_row(&UniqueAudioTableCol::Name("b".into())).unwrap().id;
    table.increment_play_count(id_b).unwrap();

    let names = |kind: DisplayType| -> Vec<String> {
        let mut p = AudioTablePaginatorBuilder::template(&conn, kind, "").build();
        p.next_page().unwrap().into_iter().map(|r| r.name).collect()
    };
    assert_eq!(names(DisplayType::All), vec!["b", "a", "c"]);
    assert_eq!(names(DisplayType::Pinned), vec!["a", "c"]);
    assert_eq!(names(DisplayType::RecentlyAdded), vec!["c", "a", "b"]);
    assert_eq!(names(DisplayType::MostPlayed)[0], "b");
    let info = AudioTablePaginatorBuilder::all_template(&conn)
        .page_limit(2)
        .offset(2)
        .build()
        .pageinate_info()
        .unwrap();
    assert_eq!(info.cur_page, 2);
    assert_eq!(info.total_pages, 1);
    assert_eq!(info.prev_page_offset, Some(0));
    assert!(AudioTablePaginatorBuilder::all_template(&conn)
        .page_limit(0)
        .build()
        .pageinate_info()
        .is_err());
}

#[test]
fn has_audio_file_looks_up_the_path() {
    let pool = memory_pool();
    let conn = pool.get().unwrap();
    let table = AudioTable::new(&conn);
    table.create_table().unwrap();
    let row = make_audio_table_row_insert();
    table.insert_audio_row(&row).unwrap();
    assert!(table.has_audio_file(row.audio_file.path()));
    assert!(!table.has_audio_file("/tmp/none.mp3"));
}

#[test]
fn display_message_of_a_page() {
    let pool = memory_pool();
    let conn = pool.get().unwrap();
    let table = AudioTable::new(&conn);
    table.create_table().unwrap();
    for i in 0..7 {
        table
            .insert_audio_row(&make_detailed_audio_table_row_insert(&format!("sound {i}"), ""))
            .unwrap();
    }
    let mut paginator = AudioTablePaginatorBuilder::all_template(&conn).page_limit(6).build();
    let message = make_display_message(&mut paginator, DisplayType::All, "").unwrap();
    assert_eq!(message.content, "### All Sounds (page 1 of 1)...");
    assert_eq!(message.sound_rows.len(), 2);
    assert_eq!(message.sound_rows[0].len(), 5);
    assert_eq!(message.sound_rows[1].len(), 1);
    assert_eq!(message.sound_rows[0][0].label, "sound 0");
    assert!(message.controls[0].disabled);
    assert!(!message.controls[2].disabled);
    assert_eq!(paginator.offset, 6);
}

#[test]
fn statement_parameters_are_fixed() {
    assert_eq!(increment_params(5, 9), vec![SqlParam::Integer(5), SqlParam::Integer(9)]);
    assert_eq!(delete_params(3), vec![SqlParam::Integer(3)]);
    assert_eq!(
        pin_params("x", true),
        vec![SqlParam::Integer(1), SqlParam::Text("x".into())]
    );
    let (sql, params) = autocomplete_query("ab", 4);
    assert_eq!(sql, "SELECT name FROM audio ORDER BY created_at DESC LIMIT ?1");
    assert_eq!(params, vec![SqlParam::Integer(4)]);
    let (sql, params) = autocomplete_query("a\"b", usize::MAX);
    assert_eq!(sql, "SELECT name FROM fts5_audio(?1) LIMIT ?2");
    assert_eq!(
        params,
        vec![SqlParam::Text("\"a\"\"b\"".into()), SqlParam::Integer(i64::MAX)]
    );
    let rows = vec![
        vec![SqlValue::Text("a".into())],
        vec![SqlValue::Null],
        vec![SqlValue::Text("b".into())],
        vec![SqlValue::Text("c".into())],
    ];
    assert_eq!(names_of(&rows, 2), vec!["a", "b"]);
    assert_eq!(names_of(&rows, 9), vec!["a", "b", "c"]);
}

#[test]
fn counts_are_capped() {
    let rows = vec![vec![SqlValue::Integer(3)]];
    assert_eq!(count_of_rows(&rows, Some(2)), Ok(2));
    assert_eq!(count_of_rows(&rows, Some(5)), Ok(3));
    assert_eq!(count_of_rows(&rows, None), Ok(3));
    assert!(count_of_rows(&vec![vec![SqlValue::Integer(-1)]], None).is_err());
    assert!(count_of_rows(&vec![], None).is_err());
}

#[test]
fn update_parameters_follow_the_row() {
    let pool = memory_pool();
    let conn = pool.get().unwrap();
    let table = AudioTable::new(&conn);
    table.create_table().unwrap();
    table.insert_audio_row(&make_detailed_audio_table_row_insert("p", "one two")).unwrap();
    let row = table.find_audio_row(&UniqueAudioTableCol::Name("p".into())).unwrap();
    assert_eq!(
        row.update_params(),
        vec![
            SqlParam::Text("p".into()),
            SqlParam::Text("one two".into()),
            SqlParam::Integer(row.id)
        ]
    );
}
