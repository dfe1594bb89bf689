use project_init::context::Context;
use project_init::date::{date_on, format_date, integer_text, natural_text, today, Date};
use project_init::includes::{license_text, ALL_RIGHTS_RESERVED, BSD, BSD3, GPL3, MIT};
use project_init::settings::{
    build_context, insert_custom, insert_reserved, resolve_license, resolve_version,
    resolve_version_control,
};
use project_init::types::{
    Author, Config, CustomKeys, Directory, License, Project, ProjectConfig, VersionControl,
};

fn table(text: &str) -> Option<CustomKeys> {
    Some(CustomKeys { toml: text.parse::<toml::Value>().unwrap() })
}

fn empty_project() -> Project {
    Project {
        license: None,
        with_readme: false,
        files: Directory { files: None, directories: None, templates: None, scripts: None },
        config: None,
        custom_keys: None,
        path: String::from("templates/demo"),
    }
}

fn empty_config() -> Config {
    Config {
        version_control: None,
        author: None,
        license: None,
        custom_keys: None,
        templates_repository: None,
    }
}

fn a_date() -> Date {
    Date { year: 2024, month0: 1, day0: 28 }
}

#[test]
fn license_names() {
    assert_eq!(License::from_name("BSD3"), License::Bsd3);
    assert_eq!(License::from_name("BSD"), License::Bsd);
    assert_eq!(License::from_name("GPL3"), License::Gpl3);
    assert_eq!(License::from_name("MIT"), License::Mit);
    assert_eq!(License::from_name("ALL_RIGHTS_RESERVED"), License::AllRightsReserved);
    assert_eq!(License::from_name("AllRightsReserved"), License::AllRightsReserved);
    assert_eq!(License::from_name("mit"), License::Unknown("mit".to_string()));
    assert_eq!(License::from_name(""), License::Unknown(String::new()));
    assert_eq!(License::from_name("WTFPL"), License::Unknown("WTFPL".to_string()));
}

#[test]
fn license_display_names() {
    assert_eq!(License::Bsd3.to_string(), "BSD3");
    assert_eq!(License::Bsd.to_string(), "BSD");
    assert_eq!(License::Gpl3.to_string(), "GPL3");
    assert_eq!(License::Mit.to_string(), "MIT");
    assert_eq!(License::AllRightsReserved.to_string(), "All Rights Reserved");
    assert_eq!(License::Unknown("x".to_string()).to_string(), "Unknown License");
    assert!(License::Mit.is_known());
    assert!(!License::Unknown("x".to_string()).is_known());
    assert_eq!(License::Unknown("x".to_string()).duplicate(), License::Unknown("x".to_string()));
}

#[test]
fn built_in_texts_keep_their_layout() {
    assert!(BSD3.starts_with("Copyright (c) {{year}}, {{name}}\nAll rights reserved.\n\nRedistribution"));
    assert!(BSD3.contains("copyright notice, this\n   list of conditions and the following"));
    assert!(BSD3.contains("3. Neither the name of the copyright holder"));
    assert!(!BSD.contains("3. Neither the name"));
    assert!(BSD.ends_with("POSSIBILITY OF SUCH DAMAGE.\n"));
    assert!(GPL3.contains("GNU General Public License"));
    assert!(MIT.starts_with("Copyright (c) {{year}} {{name}}\n\nPermission is hereby granted"));
    assert_eq!(ALL_RIGHTS_RESERVED, "Copyright (c) {{year}} {{name}}\n\nAll rights reserved.\n");
}

#[test]
fn license_texts() {
    assert_eq!(license_text(&License::Bsd3), Some(BSD3));
    assert_eq!(license_text(&License::Bsd), Some(BSD));
    assert_eq!(license_text(&License::Gpl3), Some(GPL3));
    assert_eq!(license_text(&License::Mit), Some(MIT));
    assert_eq!(license_text(&License::AllRightsReserved), Some(ALL_RIGHTS_RESERVED));
    assert_eq!(license_text(&License::Unknown("x".to_string())), None);
}

#[test]
fn version_control_names() {
    assert_eq!(VersionControl::from_name("git"), VersionControl::Git);
    assert_eq!(VersionControl::from_name("hg"), VersionControl::Mercurial);
    assert_eq!(VersionControl::from_name("mercurial"), VersionControl::Mercurial);
    assert_eq!(VersionControl::from_name("darcs"), VersionControl::Darcs);
    assert_eq!(VersionControl::from_name("pijul"), VersionControl::Pijul);
    assert_eq!(VersionControl::from_name("svn"), VersionControl::Unknown("svn".to_string()));
    assert_eq!(VersionControl::Git.to_string(), "git");
    assert_eq!(VersionControl::Mercurial.to_string(), "mercurial");
    assert_eq!(VersionControl::Darcs.to_string(), "darcs");
    assert_eq!(VersionControl::Pijul.to_string(), "pijul");
    assert_eq!(VersionControl::Unknown("svn".to_string()).to_string(), "Unknown Version Control");
    assert_eq!(VersionControl::Pijul.duplicate(), VersionControl::Pijul);
}

#[test]
fn author_new_has_no_user_name() {
    let author = Author::new("Ada", "ada@example.org");
    assert_eq!(author.name, "Ada");
    assert_eq!(author.email, "ada@example.org");
    assert_eq!(author.github_username, None);
}

#[test]
fn the_manifest_license_overrides_the_global_one() {
    let mut project = empty_project();
    let mut config = empty_config();
    assert_eq!(resolve_license(&project, &config), None);
    config.license = Some(License::Bsd);
    assert_eq!(resolve_license(&project, &config), Some(License::Bsd));
    project.license = Some(License::Mit);
    assert_eq!(resolve_license(&project, &config), Some(License::Mit));
    project.license = Some(License::Unknown("x".to_string()));
    assert_eq!(resolve_license(&project, &config), Some(License::Unknown("x".to_string())));
}

#[test]
fn the_manifest_version_control_overrides_the_global_one() {
    let mut project = empty_project();
    let mut config = empty_config();
    assert_eq!(resolve_version_control(&project, &config), None);
    config.version_control = Some(VersionControl::Git);
    assert_eq!(resolve_version_control(&project, &config), Some(VersionControl::Git));
    project.config = Some(ProjectConfig { version_control: None, version: None });
    assert_eq!(resolve_version_control(&project, &config), Some(VersionControl::Git));
    project.config =
        Some(ProjectConfig { version_control: Some(VersionControl::Darcs), version: None });
    assert_eq!(resolve_version_control(&project, &config), Some(VersionControl::Darcs));
    config.version_control = None;
    assert_eq!(resolve_version_control(&project, &config), Some(VersionControl::Darcs));
}

#[test]
fn the_version_defaults() {
    let mut project = empty_project();
    assert_eq!(resolve_version(&project), "0.1.0");
    project.config = Some(ProjectConfig { version_control: None, version: None });
    assert_eq!(resolve_version(&project), "0.1.0");
    project.config =
        Some(ProjectConfig { version_control: None, version: Some("2.3.4".to_string()) });
    assert_eq!(resolve_version(&project), "2.3.4");
}

#[test]
fn numbers_in_decimal() {
    assert_eq!(natural_text(0), "0");
    assert_eq!(natural_text(7), "7");
    assert_eq!(natural_text(10), "10");
    assert_eq!(natural_text(1234567890), "1234567890");
    assert_eq!(natural_text(u64::MAX), "18446744073709551615");
    assert_eq!(integer_text(0), "0");
    assert_eq!(integer_text(-5), "-5");
    assert_eq!(integer_text(2024), "2024");
    assert_eq!(integer_text(i32::MIN), "-2147483648");
    assert_eq!(integer_text(i32::MAX), "2147483647");
}

#[test]
fn dates_count_month_and_day_from_zero() {
    assert_eq!(format_date(0, 0, 2024), "0-0-2024");
    assert_eq!(format_date(11, 30, 1999), "11-30-1999");
    assert_eq!(format_date(1, 28, -3), "1-28--3");
}

#[test]
fn custom_keys_bind_string_values_only() {
    let keys = table("ext = \"rs\"\ncount = 3\nflag = true\n[nested]\ninner = \"x\"\n");
    let entries = keys.as_ref().unwrap().entries();
    assert_eq!(
        entries,
        vec![
            ("count".to_string(), None),
            ("ext".to_string(), Some("rs".to_string())),
            ("flag".to_string(), None),
            ("nested".to_string(), None),
        ]
    );
    let context = insert_custom(Context::new(), &keys);
    assert_eq!(context.render("{{ext}}|{{count}}|{{flag}}|{{inner}}"), Ok("rs|||".to_string()));
}

#[test]
fn a_value_that_is_no_table_has_no_entries() {
    let keys = Some(CustomKeys { toml: toml::Value::String("ext".to_string()) });
    assert_eq!(keys.as_ref().unwrap().entries(), Vec::new());
    let context = insert_custom(Context::new().insert("ext", "kept"), &keys);
    assert_eq!(context.render("{{ext}}"), Ok("kept".to_string()));
    let context = insert_custom(Context::new().insert("ext", "kept"), &None);
    assert_eq!(context.render("{{ext}}"), Ok("kept".to_string()));
}

#[test]
fn the_global_value_of_a_custom_key_wins() {
    let mut project = empty_project();
    let mut config = empty_config();
    project.custom_keys = table("shared = \"manifest\"\nlocal = \"here\"\n");
    config.custom_keys = table("shared = \"global\"\nwide = \"there\"\n");
    let context = build_context("demo", &project, &config, a_date());
    assert_eq!(context.render("{{shared}}"), Ok("global".to_string()));
    assert_eq!(context.render("{{local}}"), Ok("here".to_string()));
    assert_eq!(context.render("{{wide}}"), Ok("there".to_string()));
}

#[test]
fn a_global_value_that_is_no_string_leaves_the_manifest_value() {
    let mut project = empty_project();
    let mut config = empty_config();
    project.custom_keys = table("shared = \"manifest\"\n");
    config.custom_keys = table("shared = 5\n");
    let context = build_context("demo", &project, &config, a_date());
    assert_eq!(context.render("{{shared}}"), Ok("manifest".to_string()));
}

#[test]
fn custom_keys_cannot_shadow_reserved_names() {
    let mut project = empty_project();
    let mut config = empty_config();
    project.custom_keys = table("project = \"other\"\nyear = \"1\"\nname = \"nobody\"\n");
    config.custom_keys = table("version = \"9\"\ndate = \"never\"\nemail = \"x\"\n");
    config.author = Some(Author::new("Ada", "ada@example.org"));
    let context = build_context("demo", &project, &config, a_date());
    assert_eq!(
        context.render("{{project}} {{year}} {{name}} {{version}} {{date}} {{email}}"),
        Ok("demo 2024 Ada 0.1.0 1-28-2024 ada@example.org".to_string())
    );
}

#[test]
fn the_context_binds_the_reserved_names() {
    let mut project = empty_project();
    let mut config = empty_config();
    project.license = Some(License::AllRightsReserved);
    project.config =
        Some(ProjectConfig { version_control: None, version: Some("1.2.3".to_string()) });
    config.author = Some(Author {
        name: "Ada".to_string(),
        email: "ada@example.org".to_string(),
        github_username: Some("ada".to_string()),
    });
    let context = build_context("my_project", &project, &config, a_date());
    assert_eq!(context.render("{{project}}"), Ok("my_project".to_string()));
    assert_eq!(context.render("{{Project}}"), Ok("My_project".to_string()));
    assert_eq!(context.render("{{ProjectCamelCase}}"), Ok("MyProject".to_string()));
    assert_eq!(context.render("{{year}}"), Ok("2024".to_string()));
    assert_eq!(context.render("{{version}}"), Ok("1.2.3".to_string()));
    assert_eq!(context.render("{{github_username}}"), Ok("ada".to_string()));
    assert_eq!(context.render("{{date}}"), Ok("1-28-2024".to_string()));
    assert_eq!(context.render("{{name}}"), Ok("Ada".to_string()));
    assert_eq!(context.render("{{email}}"), Ok("ada@example.org".to_string()));
    assert_eq!(context.render("{{license}}"), Ok("All Rights Reserved".to_string()));
    assert_eq!(context.render("{{files}}"), Ok(String::new()));
}

#[test]
fn without_an_author_the_fields_are_empty() {
    let project = empty_project();
    let config = empty_config();
    let context = build_context("demo", &project, &config, a_date());
    assert_eq!(
        context.render("[{{name}}][{{email}}][{{github_username}}][{{license}}]"),
        Ok("[][][][]".to_string())
    );
}

#[test]
fn capitalizing_touches_the_first_character_only() {
    let project = empty_project();
    let config = empty_config();
    let context = insert_reserved(Context::new(), "stringy string", &project, &config, a_date());
    assert_eq!(context.render("{{Project}}"), Ok("Stringy string".to_string()));
    let context = insert_reserved(Context::new(), "Already", &project, &config, a_date());
    assert_eq!(context.render("{{Project}}"), Ok("Already".to_string()));
    let context = insert_reserved(Context::new(), "\u{e9}t\u{e9}", &project, &config, a_date());
    assert_eq!(context.render("{{Project}}"), Ok("\u{e9}t\u{e9}".to_string()));
    let context = insert_reserved(Context::new(), "", &project, &config, a_date());
    assert_eq!(context.render("{{Project}}"), Ok(String::new()));
    let context = insert_reserved(Context::new(), "kebab-case name", &project, &config, a_date());
    assert_eq!(context.render("{{ProjectCamelCase}}"), Ok("KebabCaseName".to_string()));
}

#[test]
fn the_date_of_a_moment() {
    assert_eq!(date_on(Some(0)), Some(Date { year: 1970, month0: 0, day0: 0 }));
    assert_eq!(date_on(Some(86_399)), Some(Date { year: 1970, month0: 0, day0: 0 }));
    assert_eq!(date_on(Some(86_400)), Some(Date { year: 1970, month0: 0, day0: 1 }));
    assert_eq!(date_on(Some(31 * 86_400)), Some(Date { year: 1970, month0: 1, day0: 0 }));
    assert_eq!(date_on(Some(951_782_400)), Some(Date { year: 2000, month0: 1, day0: 28 }));
    assert_eq!(date_on(Some(1_735_689_599)), Some(Date { year: 2024, month0: 11, day0: 30 }));
    assert_eq!(date_on(None), None);
    assert_eq!(date_on(Some(u64::MAX)), None);
    assert_eq!(date_on(Some(i64::MAX as u64)), None);
}

#[test]
fn today_lies_in_the_calendar() {
    let date = today().unwrap();
    assert!(date.year >= 2024);
    assert!(date.month0 < 12);
    assert!(date.day0 < 31);
}
