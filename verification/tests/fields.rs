use my_stacking::config::Field;
use my_stacking::config::MyStackingConfig;
use my_stacking::message::Message;
use my_stacking::message::Persistence;
use my_stacking::screen::Screen;
use my_stacking::wizard::MyStacking;

fn record(siril: &str, data: &str, work: &str, output: &str) -> MyStackingConfig {
    MyStackingConfig {
        siril_path: String::from(siril),
        data_path: String::from(data),
        work_path: String::from(work),
        output_path: String::from(output),
    }
}

fn filled() -> MyStacking {
    let mut wizard = MyStacking::default();
    wizard.update(Message::SirilPathChanged(String::from("/usr/bin/siril")));
    wizard.update(Message::DataPathChanged(String::from("/data")));
    wizard.update(Message::WorkPathChanged(String::from("/work")));
    wizard.update(Message::OutputPathChanged(String::from("/out")));
    wizard
}

#[test]
fn the_default_record_has_nothing_set() {
    assert_eq!(MyStackingConfig::default(), record("", "", "", ""));
}

#[test]
fn set_field_writes_the_field_and_the_record_and_nothing_else() {
    let mut wizard = filled();
    wizard.set_field(Field::DataPath, String::from("X"));
    assert_eq!(wizard.data_path, "X");
    assert_eq!(wizard.config.data_path, "X");
    assert_eq!(wizard.siril_path, "/usr/bin/siril");
    assert_eq!(wizard.work_path, "/work");
    assert_eq!(wizard.output_path, "/out");
    assert_eq!(wizard.config, record("/usr/bin/siril", "X", "/work", "/out"));
    assert_eq!(wizard.screen, Screen::Start);
}

#[test]
fn set_field_reaches_each_of_the_four_fields() {
    let mut wizard = MyStacking::default();
    wizard.set_field(Field::SirilPath, String::from("s"));
    assert_eq!(wizard.siril_path, "s");
    assert_eq!(wizard.config, record("s", "", "", ""));
    wizard.set_field(Field::DataPath, String::from("d"));
    assert_eq!(wizard.data_path, "d");
    assert_eq!(wizard.config, record("s", "d", "", ""));
    wizard.set_field(Field::WorkPath, String::from("w"));
    assert_eq!(wizard.work_path, "w");
    assert_eq!(wizard.config, record("s", "d", "w", ""));
    wizard.set_field(Field::OutputPath, String::from("o"));
    assert_eq!(wizard.output_path, "o");
    assert_eq!(wizard.config, record("s", "d", "w", "o"));
}

#[test]
fn set_field_takes_the_text_as_it_is() {
    let mut wizard = MyStacking::default();
    wizard.set_field(Field::WorkPath, String::from("  spaced out \n"));
    assert_eq!(wizard.work_path, "  spaced out \n");
    assert_eq!(wizard.config.work_path, "  spaced out \n");
    wizard.set_field(Field::WorkPath, String::new());
    assert_eq!(wizard.work_path, "");
    assert_eq!(wizard.config.work_path, "");
}

#[test]
fn the_record_can_be_set_on_its_own() {
    let mut config = record("a", "b", "c", "d");
    config.set(Field::OutputPath, String::from("z"));
    assert_eq!(config, record("a", "b", "c", "z"));
    config.set(Field::SirilPath, String::from("y"));
    assert_eq!(config, record("y", "b", "c", "z"));
}

#[test]
fn a_clone_equals_the_record() {
    let config = record("a", "b", "c", "d");
    assert_eq!(config.clone(), config);
}

#[test]
fn update_with_an_edit_message_sets_that_field() {
    let wizard = filled();
    assert_eq!(wizard.siril_path, "/usr/bin/siril");
    assert_eq!(wizard.data_path, "/data");
    assert_eq!(wizard.work_path, "/work");
    assert_eq!(wizard.output_path, "/out");
    assert_eq!(wizard.config, record("/usr/bin/siril", "/data", "/work", "/out"));
    assert_eq!(wizard.screen, Screen::Start);
}

#[test]
fn edits_work_on_every_screen() {
    let mut wizard = filled();
    wizard.screen = Screen::Result;
    wizard.update(Message::DataPathChanged(String::from("late")));
    assert_eq!(wizard.data_path, "late");
    assert_eq!(wizard.config.data_path, "late");
    assert_eq!(wizard.screen, Screen::Result);
}

#[test]
fn entering_the_second_screen_asks_for_one_save_of_the_current_record() {
    let mut wizard = filled();
    let request = wizard.handle(Message::NextPressed);
    assert_eq!(wizard.screen, Screen::Selection);
    assert_eq!(
        request,
        Persistence::Save(record("/usr/bin/siril", "/data", "/work", "/out"))
    );
}

#[test]
fn coming_back_to_the_first_screen_asks_for_one_load() {
    let mut wizard = filled();
    wizard.handle(Message::NextPressed);
    let request = wizard.handle(Message::BackPressed);
    assert_eq!(wizard.screen, Screen::Start);
    assert_eq!(request, Persistence::Load);
}

#[test]
fn entering_the_last_screen_asks_for_nothing() {
    let mut wizard = filled();
    wizard.handle(Message::NextPressed);
    assert_eq!(wizard.handle(Message::NextPressed), Persistence::Nothing);
    assert_eq!(wizard.screen, Screen::Result);
}

#[test]
fn coming_back_to_the_second_screen_asks_for_a_save() {
    let mut wizard = filled();
    wizard.screen = Screen::Result;
    let request = wizard.handle(Message::BackPressed);
    assert_eq!(wizard.screen, Screen::Selection);
    assert_eq!(
        request,
        Persistence::Save(record("/usr/bin/siril", "/data", "/work", "/out"))
    );
}

#[test]
fn inputs_that_stay_on_the_screen_ask_for_nothing() {
    let mut wizard = MyStacking::default();
    assert_eq!(wizard.handle(Message::BackPressed), Persistence::Nothing);
    assert_eq!(wizard.handle(Message::NextPressed), Persistence::Nothing);
    assert_eq!(
        wizard.handle(Message::SirilPathChanged(String::from("s"))),
        Persistence::Nothing
    );
    assert_eq!(wizard.siril_path, "s");
    let mut wizard = filled();
    wizard.screen = Screen::Result;
    assert_eq!(wizard.handle(Message::NextPressed), Persistence::Nothing);
}

#[test]
fn on_enter_names_the_request_of_each_screen() {
    let mut wizard = filled();
    assert_eq!(wizard.on_enter(), Persistence::Load);
    wizard.screen = Screen::Selection;
    assert_eq!(wizard.on_enter(), Persistence::Save(wizard.config.clone()));
    wizard.screen = Screen::Result;
    assert_eq!(wizard.on_enter(), Persistence::Nothing);
}

#[test]
fn the_saved_record_is_the_record_not_the_fields() {
    let mut wizard = filled();
    wizard.loaded(Some(record("p", "q", "r", "s")));
    wizard.update(Message::WorkPathChanged(String::from("/w2")));
    let request = wizard.handle(Message::NextPressed);
    assert_eq!(request, Persistence::Save(record("p", "q", "/w2", "s")));
}

#[test]
fn a_loaded_record_replaces_the_record_and_leaves_the_fields() {
    let mut wizard = filled();
    wizard.loaded(Some(record("p", "q", "r", "s")));
    assert_eq!(wizard.config, record("p", "q", "r", "s"));
    assert_eq!(wizard.siril_path, "/usr/bin/siril");
    assert_eq!(wizard.data_path, "/data");
    assert_eq!(wizard.work_path, "/work");
    assert_eq!(wizard.output_path, "/out");
    assert_eq!(wizard.screen, Screen::Start);
}

#[test]
fn a_failed_load_changes_nothing() {
    let before = filled();
    let mut wizard = before.clone();
    wizard.loaded(None);
    assert_eq!(wizard, before);
}

#[test]
fn a_clone_is_independent_of_the_wizard_it_came_from() {
    let wizard = filled();
    let mut copy = wizard.clone();
    assert_eq!(copy, wizard);
    copy.set_field(Field::SirilPath, String::from("elsewhere"));
    assert_ne!(copy, wizard);
    assert_eq!(wizard.siril_path, "/usr/bin/siril");
    assert_eq!(wizard.config.siril_path, "/usr/bin/siril");
}

#[test]
fn records_differ_when_any_one_text_differs() {
    let base = record("a", "b", "c", "d");
    assert_ne!(base, record("x", "b", "c", "d"));
    assert_ne!(base, record("a", "x", "c", "d"));
    assert_ne!(base, record("a", "b", "x", "d"));
    assert_ne!(base, record("a", "b", "c", "x"));
    assert_eq!(base, record("a", "b", "c", "d"));
}

#[test]
fn requests_compare_by_kind_and_record() {
    assert_eq!(Persistence::Nothing, Persistence::Nothing);
    assert_eq!(Persistence::Load, Persistence::Load);
    assert_ne!(Persistence::Load, Persistence::Nothing);
    assert_ne!(Persistence::Save(record("a", "b", "c", "d")), Persistence::Load);
    assert_ne!(
        Persistence::Save(record("a", "b", "c", "d")),
        Persistence::Save(record("a", "b", "c", "e"))
    );
    let request = Persistence::Save(record("a", "b", "c", "d"));
    assert_eq!(request.clone(), request);
}

#[test]
fn a_cloned_message_has_the_same_effect() {
    let message = Message::OutputPathChanged(String::from("/elsewhere"));
    let mut first = MyStacking::default();
    let mut second = MyStacking::default();
    first.update(message.clone());
    second.update(message);
    assert_eq!(first, second);
    assert_eq!(first.output_path, "/elsewhere");
}
