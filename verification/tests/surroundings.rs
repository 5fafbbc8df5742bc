use paimon::paimon::{OptionAction, Paimon, Step};
use paimon::prime_down::{PrimeDownInjectJS, Setting, SettingItem};
use paimon::render::RenderMarkdownUtils;
use paimon::system::System;
use paimon::validation::{ErrorKind, Validate, ValidationError};

fn rejected(kind: ErrorKind, message: &str) -> Result<(), ValidationError> {
    Err(ValidationError { kind, message: message.to_string() })
}

#[test]
fn links_are_validated_by_shape() {
    assert_eq!(Validate::validate_url("https://hello.com"), Ok(()));
    assert_eq!(Validate::validate_url("https://hello.com/example?q=1#top"), Ok(()));
    assert_eq!(
        Validate::validate_url("not a link"),
        rejected(ErrorKind::InvalidInput, "The url not a link is not a valid")
    );
    assert_eq!(
        Validate::validate_url(""),
        rejected(ErrorKind::InvalidInput, "The url  is not a valid")
    );
}

#[test]
fn list_files_must_exist_and_be_text() {
    assert_eq!(Validate::validate_file("papers.txt", true), Ok(()));
    assert_eq!(
        Validate::validate_file("papers.txt", false),
        rejected(ErrorKind::NotFound, "The file papers.txt does not exist.")
    );
    assert_eq!(
        Validate::validate_file("papers.md", true),
        rejected(ErrorKind::InvalidData, "The file papers.md is not a .txt")
    );
    assert_eq!(
        Validate::validate_file("papers.md", false),
        rejected(ErrorKind::NotFound, "The file papers.md does not exist.")
    );
}

#[test]
fn file_types_are_suffixes() {
    assert_eq!(Validate::validate_file_type("page.html", ".html"), Ok(()));
    assert_eq!(Validate::validate_file_type("page.html", ""), Ok(()));
    assert_eq!(
        Validate::validate_file_type("page.html", ".pdf"),
        rejected(ErrorKind::InvalidData, "The file page.html is not a .pdf")
    );
    assert_eq!(
        Validate::validate_file_type("pdf", ".pdf"),
        rejected(ErrorKind::InvalidData, "The file pdf is not a .pdf")
    );
}

#[test]
fn only_status_200_passes() {
    assert_eq!(Validate::check_url_status(200, "200 OK"), Ok(()));
    assert_eq!(
        Validate::check_url_status(404, "404 Not Found"),
        Err("Received a non-200 status: 404 Not Found".to_string())
    );
    assert_eq!(
        Validate::check_url_status(204, "204 No Content"),
        Err("Received a non-200 status: 204 No Content".to_string())
    );
    assert_eq!(Validate::check_url_status(0, ""), Err("Received a non-200 status: ".to_string()));
}

#[test]
fn block_markers_are_stripped() {
    assert_eq!(
        RenderMarkdownUtils::remove_readme_macros(
            "<p>!readme</p>\n<h1>Title</h1>\n<p>!end_readme</p>\n"
        ),
        "<h1>Title</h1>\n"
    );
    assert_eq!(RenderMarkdownUtils::remove_readme_macros("<p>!readme</p>"), "<p>!readme</p>");
    assert_eq!(RenderMarkdownUtils::remove_readme_macros(""), "");
}

#[test]
fn readme_block_is_found() {
    assert_eq!(
        RenderMarkdownUtils::extract_readme_block("a\n!readme\n# T\n!end_readme\nb"),
        Some("!readme\n# T\n!end_readme".to_string())
    );
    assert_eq!(
        RenderMarkdownUtils::extract_readme_block("é!readme é !end_readme!end_readme"),
        Some("!readme é !end_readme".to_string())
    );
    assert_eq!(RenderMarkdownUtils::extract_readme_block("!readme only"), None);
    assert_eq!(RenderMarkdownUtils::extract_readme_block("only !end_readme"), None);
    assert_eq!(RenderMarkdownUtils::extract_readme_block(""), None);
    assert_eq!(RenderMarkdownUtils::extract_readme_block("!end_readme then !readme"), None);
}

#[test]
fn readme_block_is_rendered() {
    let html = RenderMarkdownUtils::render_markdown("x\n!readme\n# Title\n!end_readme\ny");
    assert_eq!(
        html,
        Some("<p>!readme</p>\n<h1>Title</h1>\n<p>!end_readme</p>\n".to_string())
    );
    assert_eq!(RenderMarkdownUtils::render_markdown("no block here"), None);
}

#[test]
fn pages_are_minified() {
    assert_eq!(
        RenderMarkdownUtils::minify_page("<p>Foo <span>Bar</span> <span>Baz</span></p>"),
        "<p>Foo <span>Bar</span> <span>Baz</span></p>"
    );
    assert_eq!(RenderMarkdownUtils::minify_page("\n"), "");
    let page = "\n  <html>\n    <head>\n    </head>\n  <html>\n";
    assert_eq!(RenderMarkdownUtils::minify_page(page), "<html> <head> </head> <html>");
}

#[test]
fn script_tags_for_strings_only() {
    let items = vec![
        SettingItem::Text("a.js".to_string()),
        SettingItem::Other,
        SettingItem::Text("https://cdn.example/b.js".to_string()),
    ];
    assert_eq!(
        PrimeDownInjectJS::generate_script_tags(&items),
        "<script src=\"a.js\"></script>\n<script src=\"https://cdn.example/b.js\"></script>\n"
    );
    assert_eq!(PrimeDownInjectJS::generate_script_tags(&Vec::new()), "");
    assert_eq!(PrimeDownInjectJS::generate_script_tags(&vec![SettingItem::Other]), "");
}

#[test]
fn tags_come_from_lists_only() {
    assert_eq!(PrimeDownInjectJS::from_cdn(&Setting::Other), None);
    assert_eq!(PrimeDownInjectJS::from_cdn(&Setting::Sequence(Vec::new())), Some(String::new()));
    assert_eq!(
        PrimeDownInjectJS::from_cdn(&Setting::Sequence(vec![SettingItem::Text("a.js".into())])),
        Some("<script src=\"a.js\"></script>\n".to_string())
    );
}

#[test]
fn tags_as_they_are_put_on_the_page() {
    let one = Setting::Sequence(vec![SettingItem::Text("a.js".into())]);
    assert_eq!(PrimeDownInjectJS::load_from_cdn(&one), "<script src=\"a.js\"></script>");
    let two = Setting::Sequence(vec![
        SettingItem::Text("a.js".into()),
        SettingItem::Text("b.js".into()),
    ]);
    assert_eq!(
        PrimeDownInjectJS::load_from_cdn(&two),
        "<script src=\"a.js\"></script>\n  <script src=\"b.js\"></script>"
    );
    assert_eq!(PrimeDownInjectJS::load_from_cdn(&Setting::Other), "null");
    assert_eq!(PrimeDownInjectJS::load_from_cdn(&Setting::Sequence(Vec::new())), "''");
}

#[test]
fn script_files_are_joined_and_wrapped() {
    let sources = vec!["let a = 1;".to_string(), "let b = 2;".to_string()];
    assert_eq!(PrimeDownInjectJS::join_sources(&sources), "let a = 1;\nlet b = 2;\n");
    assert_eq!(PrimeDownInjectJS::join_sources(&Vec::new()), "");
    assert_eq!(PrimeDownInjectJS::wrap_script("x();"), "<script>x();</script>");
    assert_eq!(PrimeDownInjectJS::wrap_script(""), "<script></script>");
}

#[test]
fn stamps_join_date_and_time() {
    assert_eq!(System::format_date_time("2024-05-01", "13:37:00"), "2024-05-01 13:37:00");
    assert_eq!(System::format_date_time("", ""), " ");
}

#[test]
fn the_clock_gives_a_stamp() {
    let stamp = System::date_time();
    let parts: Vec<&str> = stamp.split(' ').collect();
    assert_eq!(parts.len(), 2);
    assert_eq!(parts[0].split('-').count(), 3);
    assert_eq!(parts[1].len(), 8);
    assert_eq!(parts[1].split(':').count(), 3);
}

#[test]
fn lines_are_cleaned_with_a_pattern() {
    assert_eq!(System::clean_line("a1b22c", "[0-9]+"), Some("abc".to_string()));
    assert_eq!(System::clean_line("!run script.py", r"^!\w+\s+"), Some("script.py".to_string()));
    assert_eq!(System::clean_line("abc", "x"), Some("abc".to_string()));
    assert_eq!(System::clean_line("abc", "("), None);
}

#[test]
fn option_values() {
    assert_eq!(Paimon::options("open-env"), OptionAction::OpenEnv);
    assert_eq!(Paimon::options("force-download-env"), OptionAction::ForceDownloadEnv);
    assert_eq!(Paimon::options(""), OptionAction::Nothing);
    assert_eq!(Paimon::options("open-env "), OptionAction::Nothing);
    assert_eq!(Paimon::options("Open-Env"), OptionAction::Nothing);
}

#[test]
fn steps_of_a_run() {
    assert_eq!(
        Paimon::init("", false, ""),
        vec![Step::Header, Step::Scrape, Step::Options(OptionAction::Nothing)]
    );
    assert_eq!(
        Paimon::init("", true, "open-env"),
        vec![Step::Header, Step::Scrape, Step::Options(OptionAction::OpenEnv)]
    );
    assert_eq!(
        Paimon::init("papers.txt", false, "force-download-env"),
        vec![
            Step::Header,
            Step::ReadDataset,
            Step::RenderAndSave,
            Step::Scrape,
            Step::Options(OptionAction::ForceDownloadEnv)
        ]
    );
    assert_eq!(
        Paimon::init("@someone", true, "x"),
        vec![
            Step::Header,
            Step::FetchUserLists,
            Step::Scrape,
            Step::Options(OptionAction::Nothing)
        ]
    );
}
