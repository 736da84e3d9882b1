use ebook_reader::controller::layout::can_lay_out;
use ebook_reader::controller::parser;
use ebook_reader::controller::parser::{
    check_h, default_with_color, default_with_descriptor, emphasis, h_font_size, h_label,
    h_label_emphasis, h_label_link, link, no_tag, parse, render, render_line, skip_line,
};
use ebook_reader::model::annotation::{AnnotatedLine, Annotation, LineElement, TextFragment};
use ebook_reader::model::styled_block::{FontDescriptor, FontFamily, TextColor};

fn fragment(text: &str, tags: Vec<Annotation>) -> LineElement {
    LineElement::Text(TextFragment { text: text.to_string(), tags })
}

fn marker(name: &str) -> LineElement {
    LineElement::FragmentStart(name.to_string())
}

#[test]
fn heading_sizes_are_the_fixed_scale() {
    assert_eq!(h_font_size(1, 1200), 3200);
    assert_eq!(h_font_size(2, 1200), 2400);
    assert_eq!(h_font_size(3, 1200), 1872);
    assert_eq!(h_font_size(4, 1200), 1600);
    assert_eq!(h_font_size(5, 1200), 1328);
    assert_eq!(h_font_size(6, 1200), 1072);
}

#[test]
fn heading_size_of_no_level_is_the_default() {
    assert_eq!(h_font_size(0, 1200), 1200);
    assert_eq!(h_font_size(7, 1500), 1500);
    assert_eq!(h_font_size(-1, 900), 900);
    assert_eq!(h_font_size(i32::MAX, 1), 1);
}

#[test]
fn check_h_knows_the_six_markers() {
    assert_eq!(check_h("# "), (1, true));
    assert_eq!(check_h("## "), (2, true));
    assert_eq!(check_h("### "), (3, true));
    assert_eq!(check_h("#### "), (4, true));
    assert_eq!(check_h("##### "), (5, true));
    assert_eq!(check_h("###### "), (6, true));
}

#[test]
fn check_h_takes_nothing_else_for_a_marker() {
    assert_eq!(check_h(""), (0, false));
    assert_eq!(check_h("#"), (0, false));
    assert_eq!(check_h(" "), (0, false));
    assert_eq!(check_h("##"), (0, false));
    assert_eq!(check_h("#  "), (0, false));
    assert_eq!(check_h(" # "), (0, false));
    assert_eq!(check_h("####### "), (0, false));
    assert_eq!(check_h("# Chapter"), (0, false));
    assert_eq!(check_h("#a# "), (0, false));
    assert_eq!(check_h("hello"), (0, false));
    assert_eq!(check_h("##\u{a0}"), (0, false));
}

#[test]
fn skip_filter_drops_lines_of_markers_only() {
    assert!(skip_line(&AnnotatedLine::new(vec![marker("top")])));
    assert!(skip_line(&AnnotatedLine::new(vec![marker("a"), marker("b")])));
}

#[test]
fn skip_filter_keeps_lines_with_text_and_empty_lines() {
    assert!(!skip_line(&AnnotatedLine::new(vec![fragment("text", vec![])])));
    assert!(!skip_line(&AnnotatedLine::new(vec![marker("a"), fragment("", vec![])])));
    assert!(!skip_line(&AnnotatedLine::new(vec![fragment("x", vec![]), marker("a")])));
    assert!(!skip_line(&AnnotatedLine::new(vec![])));
}

#[test]
fn skipped_line_gives_no_block_and_empty_line_gives_one() {
    assert_eq!(render_line(&AnnotatedLine::new(vec![marker("top")]), 0).len(), 0);
    let blocks = render_line(&AnnotatedLine::new(vec![]), 0);
    assert_eq!(blocks.len(), 1);
    assert_eq!(blocks[0].text, "");
    assert_eq!(blocks[0].heading_level, 0);
    assert_eq!(blocks[0].font.size, 1200);
}

#[test]
fn emphasised_line_is_one_italic_block() {
    let line = AnnotatedLine::new(vec![fragment("softly", vec![Annotation::Emphasis])]);
    let blocks = render_line(&line, 200);
    assert_eq!(blocks.len(), 1);
    assert_eq!(blocks[0].text, "softly");
    assert!(blocks[0].font.italic);
    assert!(!blocks[0].font.bold);
    assert_eq!(blocks[0].heading_level, 0);
    assert_eq!(blocks[0].font.size, 1400);
    assert_eq!(blocks[0].font.family, FontFamily::SystemUi);
    assert!(blocks[0].is_emphasis());
    assert!(!blocks[0].is_heading());
    assert!(!blocks[0].is_link());
}

#[test]
fn marked_line_is_a_heading_without_the_marker() {
    let line = AnnotatedLine::new(vec![
        fragment("## ", vec![]),
        fragment("Part ", vec![]),
        fragment("Two", vec![]),
    ]);
    let blocks = render_line(&line, 0);
    assert_eq!(blocks.len(), 1);
    assert_eq!(blocks[0].heading_level, 2);
    assert_eq!(blocks[0].text, "Part Two");
    assert_eq!(blocks[0].font.size, 2400);
    assert!(blocks[0].font.bold);
    assert!(blocks[0].is_heading());
}

#[test]
fn only_the_first_fragment_can_be_a_marker() {
    let line = AnnotatedLine::new(vec![fragment("see ", vec![]), fragment("# ", vec![])]);
    let blocks = render_line(&line, 0);
    assert_eq!(blocks.len(), 1);
    assert_eq!(blocks[0].heading_level, 0);
    assert_eq!(blocks[0].text, "see # ");
    let line = AnnotatedLine::new(vec![marker("a"), fragment("### ", vec![]), fragment("T", vec![])]);
    let blocks = render_line(&line, 0);
    assert_eq!(blocks[0].heading_level, 3);
    assert_eq!(blocks[0].text, "T");
    assert_eq!(blocks[0].font.size, 1872);
}

#[test]
fn styling_twice_gives_the_same_blocks() {
    let lines = vec![
        AnnotatedLine::new(vec![fragment("# ", vec![]), fragment("One", vec![])]),
        AnnotatedLine::new(vec![marker("x")]),
        AnnotatedLine::new(vec![
            fragment("a ", vec![Annotation::Emphasis]),
            fragment("b", vec![Annotation::Link("b.xhtml".to_string())]),
        ]),
    ];
    let first = render(&lines, 600);
    let second = render(&lines, 600);
    assert_eq!(first, second);
    assert_eq!(first.len(), 3);
}

#[test]
fn heading_line_becomes_one_bold_block() {
    let line = AnnotatedLine::new(vec![fragment("# ", vec![]), fragment("Chapter One", vec![])]);
    let blocks = render(&vec![line], 400);
    assert_eq!(blocks.len(), 1);
    assert_eq!(blocks[0].text, "Chapter One");
    assert_eq!(blocks[0].heading_level, 1);
    assert_eq!(blocks[0].font.size, 3200 + 400);
    assert!(blocks[0].font.bold);
    assert!(!blocks[0].font.italic);
    assert_eq!(blocks[0].font.family, FontFamily::SansSerif);
    assert_eq!(blocks[0].color, TextColor::Default);
    assert_eq!(blocks[0].link, None);
}

#[test]
fn link_line_becomes_one_link_block() {
    let line = AnnotatedLine::new(vec![
        fragment("see ", vec![]),
        fragment("here", vec![Annotation::Link("chapter2.xhtml".to_string())]),
    ]);
    let blocks = render(&vec![line], 0);
    assert_eq!(blocks.len(), 1);
    assert_eq!(blocks[0].text, "see here");
    assert!(blocks[0].is_link());
    assert_eq!(blocks[0].link, Some("chapter2.xhtml".to_string()));
    assert_eq!(blocks[0].color, TextColor::Aqua);
    assert_eq!(blocks[0].font.size, 1200);
    assert_eq!(blocks[0].heading_level, 0);
}

#[test]
fn fragments_are_joined_with_nothing_between() {
    let line = AnnotatedLine::new(vec![
        fragment("see", vec![]),
        fragment("here", vec![Annotation::Link("chapter2.xhtml".to_string())]),
    ]);
    let blocks = render(&vec![line], 0);
    assert_eq!(blocks[0].text, "seehere");
}

#[test]
fn every_link_and_emphasis_tag_adds_a_block() {
    let line = AnnotatedLine::new(vec![
        fragment("a", vec![Annotation::Link("x".to_string()), Annotation::Emphasis]),
        fragment("b", vec![Annotation::Emphasis]),
    ]);
    let blocks = render_line(&line, 0);
    assert_eq!(blocks.len(), 3);
    assert_eq!(blocks[0].link, Some("x".to_string()));
    assert!(blocks[1].font.italic);
    assert!(blocks[2].font.italic);
    assert_eq!(blocks[0].text, "ab");
    assert_eq!(blocks[1].text, "ab");
    assert_eq!(blocks[2].text, "ab");
}

#[test]
fn other_tags_add_no_block() {
    let line = AnnotatedLine::new(vec![fragment(
        "bold",
        vec![
            Annotation::Default,
            Annotation::Image,
            Annotation::Strong,
            Annotation::Strikeout,
            Annotation::Code,
            Annotation::Preformat(false),
            Annotation::Preformat(true),
        ],
    )]);
    assert_eq!(render_line(&line, 0).len(), 0);
}

#[test]
fn heading_with_link_and_emphasis() {
    let line = AnnotatedLine::new(vec![
        fragment("#### ", vec![]),
        fragment("go", vec![Annotation::Link("t.xhtml".to_string()), Annotation::Emphasis]),
    ]);
    let blocks = render_line(&line, -200);
    assert_eq!(blocks.len(), 2);
    assert_eq!(blocks[0].heading_level, 4);
    assert_eq!(blocks[0].font.size, 1400);
    assert!(!blocks[0].font.bold);
    assert_eq!(blocks[0].color, TextColor::Aqua);
    assert_eq!(blocks[1].heading_level, 4);
    assert!(blocks[1].font.bold);
    assert!(blocks[1].font.italic);
    assert_eq!(blocks[1].font.family, FontFamily::SystemUi);
}

#[test]
fn tags_of_a_marker_are_left_out() {
    let line = AnnotatedLine::new(vec![
        fragment("# ", vec![Annotation::Emphasis]),
        fragment("Title", vec![]),
    ]);
    let blocks = render_line(&line, 0);
    assert_eq!(blocks.len(), 1);
    assert!(!blocks[0].font.italic);
    assert_eq!(blocks[0].text, "Title");
}

#[test]
fn builders_give_the_documented_styles() {
    let plain = parser::default("a", 100);
    assert_eq!(plain.font, FontDescriptor { family: FontFamily::SystemUi, size: 1300, bold: false, italic: false });
    assert_eq!(plain.color, TextColor::Default);
    let coloured = default_with_color("a", TextColor::Aqua, 0);
    assert_eq!(coloured.color, TextColor::Aqua);
    assert_eq!(coloured.font.size, 1200);
    let font = FontDescriptor { family: FontFamily::SansSerif, size: 999, bold: true, italic: true };
    let described = default_with_descriptor("a", font);
    assert_eq!(described.font, font);
    assert_eq!(described.heading_level, 0);
    let heading = h_label("a", 5, 0);
    assert_eq!(heading.font, FontDescriptor { family: FontFamily::SansSerif, size: 1328, bold: true, italic: false });
    let heading = h_label_emphasis("a", 6, 0);
    assert_eq!(heading.font, FontDescriptor { family: FontFamily::SystemUi, size: 1072, bold: true, italic: true });
    let heading = h_label_link("a", 1, 0);
    assert_eq!(heading.font, FontDescriptor { family: FontFamily::SystemUi, size: 3200, bold: false, italic: false });
    assert_eq!(heading.color, TextColor::Aqua);
    assert_eq!(heading.link, None);
    assert_eq!(no_tag("a", 0, 0), parser::default("a", 0));
    assert_eq!(no_tag("a", 2, 0), h_label("a", 2, 0));
    assert_eq!(emphasis("a", 3, 0), h_label_emphasis("a", 3, 0));
    assert_eq!(link("a", 0, 0, "t".to_string()).link, Some("t".to_string()));
    assert_eq!(link("a", 2, 0, "t".to_string()).heading_level, 2);
    assert_eq!(link("a", 2, 50, "t".to_string()).font.size, 2450);
}

#[test]
fn page_of_html_is_styled() {
    let blocks = parse(
        "<h1>Chapter One</h1><p>see <a href=\"chapter2.xhtml\">here</a></p><p><em>softly</em></p>",
        400,
    )
    .expect("a page that can be laid out");
    let heading = blocks.iter().find(|b| b.heading_level == 1).expect("a heading");
    assert_eq!(heading.text, "Chapter One");
    assert_eq!(heading.font.size, 3600);
    assert!(heading.font.bold);
    let link = blocks.iter().find(|b| b.link.is_some()).expect("a link");
    assert_eq!(link.text, "see here");
    assert_eq!(link.link, Some("chapter2.xhtml".to_string()));
    assert_eq!(link.color, TextColor::Aqua);
    let italic = blocks.iter().find(|b| b.font.italic).expect("an emphasised block");
    assert_eq!(italic.text, "softly");
    assert!(blocks.iter().all(|b| !b.text.contains('<')));
}

#[test]
fn page_without_text_has_no_heading() {
    let blocks = parse("", 0).expect("a page that can be laid out");
    assert!(blocks.iter().all(|b| b.heading_level == 0 && b.link.is_none()));
}

fn nested(open: &str, close: &str, depth: usize, text: &str) -> String {
    let mut page = String::new();
    for _ in 0..depth {
        page.push_str(open);
    }
    page.push_str(text);
    for _ in 0..depth {
        page.push_str(close);
    }
    page
}

#[test]
fn page_is_laid_out_while_two_columns_are_left() {
    let page = nested("<blockquote>", "</blockquote>", 74, "\u{5b57}a b");
    assert!(can_lay_out(&page, 150));
    let blocks = parse(&page, 0).expect("two columns are left");
    assert!(blocks.iter().any(|b| b.text.contains('\u{5b57}')));
    let page = nested("<ul><li>", "</li></ul>", 9, "\u{5b57}a");
    assert!(can_lay_out(&page, 29));
    assert!(!can_lay_out(&page, 28));
    let page = nested("<dl><dd>", "</dd></dl>", 3, "\u{5b57}a");
    assert!(can_lay_out(&page, 8));
    assert!(!can_lay_out(&page, 7));
    assert!(can_lay_out("<h4>\u{5b57}</h4>", 7));
    assert!(!can_lay_out("<h4>\u{5b57}</h4>", 6));
    assert!(can_lay_out("\u{5b57}", 2));
    assert!(!can_lay_out("\u{5b57}", 1));
    assert!(!can_lay_out("", 0));
}

#[test]
fn page_that_is_nested_too_deep_is_not_styled() {
    let page = nested("<blockquote>", "</blockquote>", 75, "a");
    assert!(!can_lay_out(&page, 150));
    assert!(parse(&page, 0).is_none());
    let page = nested("<BlockQuote>", "</BlockQuote>", 75, "a");
    assert!(parse(&page, 0).is_none());
    let page = nested("<ul><li>", "</li></ul>", 50, "a");
    assert!(parse(&page, 0).is_none());
    let page = nested("<div><h4>", "</h4></div>", 30, "a");
    assert!(parse(&page, 0).is_none());
    let page = nested("<dl><dt>", "</dt></dl>", 75, "a");
    assert!(parse(&page, 0).is_none());
    let page = nested("<dl><dt>", "</dt></dl>", 74, "a");
    assert!(parse(&page, 0).is_some());
}

#[test]
fn only_opening_tags_are_counted() {
    assert!(can_lay_out("<html><head><link rel=\"x\"><hr></head><listing>a</listing></html>", 2));
    assert!(can_lay_out("&lt;blockquote&gt; blockquote <blockquot> <blockquotes>", 2));
    assert!(can_lay_out("<li", 2));
    assert!(!can_lay_out("<li>", 4));
    assert!(can_lay_out("<li>", 5));
    assert!(!can_lay_out("<LI\n>", 4));
    assert!(!can_lay_out("<li/>", 4));
    assert!(!can_lay_out("<h1>", 3));
    assert!(can_lay_out("<h1>", 4));
    assert!(!can_lay_out("<h2 id=\"a\">", 4));
    assert!(can_lay_out("<h2 id=\"a\">", 5));
    assert!(can_lay_out("<h3>", 6));
    assert!(can_lay_out("<h4>", 7));
    assert!(can_lay_out("<h5><h6><header>", 2));
    assert!(!can_lay_out("<dd>", 3));
    assert!(!can_lay_out("<dt>", 3));
    assert!(can_lay_out("<dt>", 4));
}

#[test]
fn page_with_a_table_is_not_styled() {
    assert!(parse("<table><tr><td>a</td></tr></table>", 0).is_none());
    assert!(parse("<TABLE></TABLE>", 0).is_none());
    assert!(parse("<p>a</p><table border=\"1\">", 0).is_none());
    assert!(can_lay_out("<title>a table</title><tablet>", 150));
}

#[test]
fn parts_of_a_table_without_a_table_are_text() {
    let pages = [
        "<td>a",
        "<p>a</p><td>b</td>",
        "<tr><td>a</td></tr>",
        "<tbody><tr><th>a</th></tr></tbody>",
        "<thead><tr><td>a</td></tr></thead><tfoot><tr><td>b</td></tr></tfoot>",
        "<caption>a</caption><colgroup><col></colgroup>",
        "<div><td id=\"x\">a</td></div>",
        "<svg><td>a</td><tr>b</tr></svg>",
        "<svg><foreignObject><td>a</td></foreignObject></svg>",
        "<math><annotation-xml encoding=\"text/html\"><tr><td>a</td></tr></annotation-xml></math>",
        "<template><tr><td>a</td></tr></template>",
        "<select><td>a</td></select>",
        "<ul><li><td>a</td></li></ul>",
        "<html><head><td>a</td></head><body><tr>b</tr></body></html>",
        "</table><td>a</td></tr></tbody>",
    ];
    for page in pages {
        assert!(can_lay_out(page, 150));
        assert!(parse(page, 0).is_some());
    }
    let blocks = parse("<td>a", 0).expect("a cell without a table");
    assert!(blocks.iter().any(|b| b.text == "a"));
}

#[test]
fn characters_that_are_too_wide_are_refused() {
    assert!(!can_lay_out("1\u{fe0f}", 1000));
    assert!(!can_lay_out("\u{17d8}", 1000));
    assert!(!can_lay_out("<p>1&#65039;</p>", 1000));
    assert!(!can_lay_out("<p>1&#xFE0F;</p>", 1000));
    assert!(!can_lay_out("<p>1&#Xfe0f</p>", 1000));
    assert!(!can_lay_out("<p>1&#x0000FE0F;</p>", 1000));
    assert!(!can_lay_out("<p>&#6104;</p>", 1000));
    assert!(!can_lay_out("<p>&#x17d8</p>", 1000));
    assert!(!can_lay_out("<img alt=\"&#x17D8;\">", 1000));
    assert!(can_lay_out("<p>&#8217;&#160;&#x1F600;&#xFE0E;&#x17D7;&#65038;&#61040;</p>", 150));
    assert!(can_lay_out("<p>&#;&#x;&#xg;&amp;#65039 &# 65039 #65039</p>", 150));
    assert!(can_lay_out("<p>&#99999999999999999999999999965039;&#x100000000FE0F;</p>", 150));
    assert!(can_lay_out("\u{1f600}\u{5b57}\u{fe0e}e\u{301}", 2));
    let mut page = "b".repeat(150);
    page.push_str(&"1\u{fe0f}".repeat(76));
    assert!(parse(&page, 0).is_none());
    let page = nested("<blockquote>", "</blockquote>", 74, "\u{17d8}");
    assert!(parse(&page, 0).is_none());
    let blocks = parse("<p>it&#8217;s &#x1F600; e&#769; \u{5b57}</p>", 0).expect("no wide character");
    assert!(blocks.iter().any(|b| b.text.contains('\u{2019}')));
}

#[test]
fn ordered_lists_are_laid_out_by_their_numbers() {
    let mut page = String::from("<ol class=\"toc\">");
    for i in 0..30 {
        page.push_str(&format!("<li>item {} started</li>", i));
    }
    page.push_str("</ol>");
    assert!(can_lay_out(&page, 122));
    assert!(!can_lay_out(&page, 121));
    let blocks = parse(&page, 0).expect("thirty items fit");
    assert!(blocks.iter().any(|b| b.text.contains("item 29")));
    let page = "<ol start=\"5\"><li>five</li><li>six</li></ol>";
    assert!(can_lay_out(page, 46));
    assert!(!can_lay_out(page, 45));
    let blocks = parse(page, 0).expect("a short list");
    assert!(blocks.iter().any(|b| b.text.contains("five")));
    let page = "<ol start=\"-92233720368547758\"><li>a</li></ol>";
    assert!(can_lay_out(page, 150));
    assert!(parse(page, 0).is_some());
    assert!(can_lay_out("<p>started 1234567890123456789</p>", 150));
}

#[test]
fn ordered_list_that_starts_too_high_is_refused() {
    let long = "9223372036854775807";
    let refused = [
        format!("<ol start=\"{}\"><li>a</li><li>b</li></ol>", long),
        format!("<ol start='{}'><li>a</li></ol>", long),
        format!("<ol start={}><li>a</li></ol>", long),
        format!("<OL\tSTART =\n {}>", long),
        format!("<ol/start={}>", long),
        format!("<ol class=\"a>b\" start=\"{}\">", long),
        format!("<ol a=b\" c=\"x>y\" start={}>", long),
        format!("<ol start=\"1\" start=\"{}\">", long),
        format!("<ol start=\"{}", long),
        "<ol START=9&#50;23372&#x30;36854775807><li>a</li></ol>".to_string(),
        "<ol start=\"-922337203685477580\"><li>a</li></ol>".to_string(),
    ];
    for page in &refused {
        assert!(!can_lay_out(page, 1000));
        assert!(parse(page, 0).is_none());
    }
    let passed = [
        format!("<ol title=\"start={}\"><li>a</li></ol>", long),
        format!("<ol data-start=\"{}\" starts=\"{}\"><li>a</li></ol>", long, long),
        format!("<ol>start=\"{}\"<li>a</li></ol>", long),
        format!("<olive start=\"{}\">", long),
        format!("<ul start=\"{}\"><li>a</li></ul>", long),
        "<ol start><li>a</li></ol>".to_string(),
        "<ol start=\"\"><li>a</li></ol>".to_string(),
    ];
    for page in &passed {
        assert!(can_lay_out(page, 5));
        assert!(parse(page, 0).is_some());
    }
}
