use page_extractor::article::{estimate_reading_time, extract_article_info, reading_minutes};
use page_extractor::classify::{classify, detect_page_type, kind_from_url, PageType};
use page_extractor::document::{Document, Element};
use page_extractor::extract::{
    extract_description, extract_main_text, extract_text_from_element, extract_title,
    select_meta_content,
};
use page_extractor::number::{is_float_text, normalize_price_text, parse_price_from_text};
use page_extractor::page::extract_from_html;
use page_extractor::product::{
    extract_availability, extract_brand, extract_price, extract_product_images,
    extract_product_info, extract_product_name, extract_rating, extract_review_count,
};
use page_extractor::settings::{get_settings, save_settings, Settings};

fn words(n: usize) -> String {
    let mut s = String::new();
    for i in 0..n {
        if i > 0 {
            s.push(' ');
        }
        s.push_str("word");
    }
    s
}

#[test]
fn price_normalization_examples() {
    assert_eq!(normalize_price_text("1,234.56"), "1234.56");
    assert_eq!(normalize_price_text("1.234,56"), "1234.56");
    assert_eq!(normalize_price_text("19,99"), "19.99");
    assert_eq!(normalize_price_text("1999"), "1999");
    let values: Vec<f64> = ["1,234.56", "1.234,56", "19,99", "1999"]
        .iter()
        .map(|t| parse_price_from_text(t).unwrap().parse::<f64>().unwrap())
        .collect();
    assert_eq!(values, vec![1234.56, 1234.56, 19.99, 1999.0]);
}

#[test]
fn price_text_with_currency_and_noise() {
    assert_eq!(parse_price_from_text("$ 1,299.00 USD"), Some("1299.00".to_string()));
    assert_eq!(parse_price_from_text("EUR 2.499,90"), Some("2499.90".to_string()));
    assert_eq!(parse_price_from_text("free"), None);
    assert_eq!(parse_price_from_text("1.2.3"), None);
}

#[test]
fn float_text_follows_f64_grammar() {
    for t in ["1", "1.5", ".5", "5.", "-2.5", "+3", "1e3", "2.5E-2", "inf", "-Infinity", "NaN"] {
        assert!(is_float_text(t), "{}", t);
        assert!(t.parse::<f64>().is_ok());
    }
    for t in ["", ".", "1.2.3", "e5", "1e", "abc", "1,5", "--1", "1 "] {
        assert!(!is_float_text(t), "{}", t);
        assert!(t.parse::<f64>().is_err());
    }
}

#[test]
fn text_longer_than_cap_is_truncated_with_marker() {
    let long = "a".repeat(10_050);
    let e = Element { texts: vec![long], attrs: vec![] };
    let t = extract_text_from_element(&e);
    assert_eq!(t.chars().count(), 10_003);
    assert!(t.ends_with("..."));
    assert_eq!(&t[..10_000], &"a".repeat(10_000)[..]);
}

#[test]
fn text_at_cap_is_kept_whole() {
    let e = Element { texts: vec!["b".repeat(10_000)], attrs: vec![] };
    assert_eq!(extract_text_from_element(&e).chars().count(), 10_000);
}

#[test]
fn text_nodes_are_trimmed_and_joined() {
    let e = Element {
        texts: vec!["  Hello\n".to_string(), "   ".to_string(), "\tworld  ".to_string()],
        attrs: vec![],
    };
    assert_eq!(extract_text_from_element(&e), "Hello world");
}

#[test]
fn reading_time_examples() {
    assert_eq!(reading_minutes(400), 2);
    assert_eq!(reading_minutes(1), 1);
    assert_eq!(reading_minutes(0), 1);
    assert_eq!(reading_minutes(200), 1);
    assert_eq!(reading_minutes(201), 2);
}

#[test]
fn reading_time_of_page_with_400_words() {
    let html = format!("<html><body><main>{}</main></body></html>", words(400));
    let doc = Document::parse(&html);
    assert_eq!(estimate_reading_time(&doc), 2);
    let one = Document::parse("<html><body><p>word</p></body></html>");
    assert_eq!(estimate_reading_time(&one), 1);
}

#[test]
fn url_marker_outranks_article_markup() {
    let html = r#"<html><body><div itemtype="https://schema.org/Article">x</div></body></html>"#;
    let doc = Document::parse(html);
    assert_eq!(detect_page_type(&doc, "https://shop.example.com/dp/B000123"), PageType::Product);
    assert_eq!(detect_page_type(&doc, "https://example.com/home"), PageType::Article);
}

#[test]
fn url_markers_are_case_insensitive() {
    let doc = Document::parse("<html><body></body></html>");
    assert_eq!(detect_page_type(&doc, "https://EXAMPLE.com/DP/X"), PageType::Product);
    assert_eq!(detect_page_type(&doc, "https://example.com/Blog/entry"), PageType::Article);
    assert_eq!(detect_page_type(&doc, "https://example.com/find?Q=shoes"), PageType::Search);
    assert_eq!(classify(&doc, "https://example.com/find?q=shoes"), PageType::Search);
}

#[test]
fn url_rules_in_order() {
    assert_eq!(kind_from_url("https://x.com/product/blog"), Some(PageType::Product));
    assert_eq!(kind_from_url("https://x.com/news/search"), Some(PageType::Article));
    assert_eq!(kind_from_url("https://x.com/search"), Some(PageType::Search));
    assert_eq!(kind_from_url("https://x.com/?query=a"), Some(PageType::Search));
    assert_eq!(kind_from_url("https://x.com/about"), None);
}

#[test]
fn markup_rules() {
    let product = Document::parse(r#"<div itemtype="http://schema.org/Product"></div>"#);
    assert_eq!(detect_page_type(&product, "https://x.com/"), PageType::Product);
    let priced = Document::parse(r#"<span class="sale-price">9</span>"#);
    assert_eq!(detect_page_type(&priced, "https://x.com/"), PageType::Product);
    let data_price = Document::parse(r#"<span data-price="9"></span>"#);
    assert_eq!(detect_page_type(&data_price, "https://x.com/"), PageType::Product);
    let plain = Document::parse("<p>hello</p>");
    assert_eq!(detect_page_type(&plain, "https://x.com/"), PageType::Other);
}

#[test]
fn article_without_author_or_date_is_absent() {
    let html = format!(
        "<html><body><article>{}</article><span class=\"author\">  </span></body></html>",
        words(500)
    );
    let doc = Document::parse(&html);
    assert!(extract_article_info(&doc).is_none());
    let page = extract_from_html(&html, "https://example.com/blog/x");
    assert_eq!(page.page_type, PageType::Article);
    assert!(page.article.is_none());
}

#[test]
fn article_with_author_and_date() {
    let html = format!(
        "<html><body><main>{}</main><a rel=\"author\"> Jane Roe </a><time datetime=\"2024-05-01\">May 1</time></body></html>",
        words(450)
    );
    let page = extract_from_html(&html, "https://example.com/post/1");
    let a = page.article.expect("article facts");
    assert_eq!(a.author, "Jane Roe");
    assert_eq!(a.publish_date, "2024-05-01");
    assert_eq!(a.reading_time, 3);
}

#[test]
fn images_are_deduplicated_and_capped() {
    let mut html = String::from("<html><body><div class=\"gallery\">");
    for i in 0..8 {
        html.push_str(&format!("<img src=\"/img/{}.jpg\">", i));
        html.push_str(&format!("<img src=\"/img/{}.jpg\">", i));
    }
    html.push_str("</div><img itemprop=\"image\" data-src=\"/hero.jpg\"></body></html>");
    let doc = Document::parse(&html);
    let images = extract_product_images(&doc);
    assert_eq!(images, vec!["/hero.jpg", "/img/0.jpg", "/img/1.jpg", "/img/2.jpg", "/img/3.jpg"]);
}

#[test]
fn image_with_empty_src_is_skipped() {
    let doc = Document::parse(
        r#"<div class="gallery"><img src="" data-src="/a.jpg"><img data-src="/b.jpg"></div>"#,
    );
    assert_eq!(extract_product_images(&doc), vec!["/b.jpg"]);
}

#[test]
fn extraction_is_repeatable() {
    let html = r#"<html><head><title> T </title><meta name="description" content=" d "></head>
        <body><h1>Widget</h1><span class="price">$10.50</span></body></html>"#;
    let a = extract_from_html(html, "https://x.com/item/1");
    let b = extract_from_html(html, "https://x.com/item/1");
    assert_eq!(a.url, b.url);
    assert_eq!(a.title, b.title);
    assert_eq!(a.description, b.description);
    assert_eq!(a.text, b.text);
    assert_eq!(a.page_type, b.page_type);
    let (pa, pb) = (a.product.unwrap(), b.product.unwrap());
    assert_eq!(pa.name, pb.name);
    assert_eq!(pa.price, pb.price);
    assert_eq!(pa.images, pb.images);
    assert!(chrono::DateTime::parse_from_rfc3339(&a.extracted_at).is_ok());
}

#[test]
fn title_and_description_fallbacks() {
    let og = Document::parse(
        r#"<head><meta property="og:title" content=" OG "><title>Plain</title>
        <meta property="og:description" content="ogd"><meta name="description" content="md"></head>"#,
    );
    assert_eq!(extract_title(&og), "OG");
    assert_eq!(extract_description(&og), "ogd");
    assert_eq!(select_meta_content(&og, "og:title"), Some("OG".to_string()));
    let plain = Document::parse(
        r#"<head><title>  Plain  </title><meta name="description" content="  md "></head>"#,
    );
    assert_eq!(extract_title(&plain), "Plain");
    assert_eq!(extract_description(&plain), "md");
    let none = Document::parse("<p>x</p>");
    assert_eq!(extract_title(&none), "");
    assert_eq!(extract_description(&none), "");
    assert_eq!(select_meta_content(&none, "og:title"), None);
}

#[test]
fn main_text_prefers_long_content_area() {
    let short = Document::parse("<body><main>short</main><p>rest</p></body>");
    assert_eq!(extract_main_text(&short), "short rest");
    let long = format!("<body><p>intro</p><div id=\"content\">{}</div></body>", words(60));
    let doc = Document::parse(&long);
    assert_eq!(extract_main_text(&doc), words(60));
}

#[test]
fn product_fields() {
    let html = r#"<html><body>
        <h1 class="product-title">  Super Kettle </h1>
        <div class="price" data-price="bad">1.299,00 EUR</div>
        <span itemprop="ratingValue" content="4.5">4.5 stars</span>
        <span class="review-count">1,234 reviews</span>
        <span class="availability"> In stock </span>
        </body></html>"#;
    let doc = Document::parse(html);
    assert_eq!(extract_product_name(&doc), Some("Super Kettle".to_string()));
    assert_eq!(extract_price(&doc), Some("1299.00".to_string()));
    assert_eq!(extract_rating(&doc), Some("4.5".to_string()));
    assert_eq!(extract_review_count(&doc), Some(1234));
    assert_eq!(extract_availability(&doc), "In stock");
    assert_eq!(extract_brand(&doc), "");
    let p = extract_product_info(&doc).unwrap();
    assert_eq!(p.currency, "USD");
    assert_eq!(p.category, "");
    assert_eq!(p.review_count, Some(1234));
}

#[test]
fn product_defaults_and_data_price() {
    let doc = Document::parse(r#"<h1>Lamp</h1><span data-price="42.5">forty</span>"#);
    assert_eq!(extract_price(&doc), Some("42.5".to_string()));
    assert_eq!(extract_availability(&doc), "Unknown");
    assert_eq!(extract_rating(&doc), None);
    assert_eq!(extract_review_count(&doc), None);
}

#[test]
fn product_needs_a_name() {
    let html = r#"<body><span class="price">10</span></body>"#;
    let page = extract_from_html(html, "https://x.com/p/1");
    assert_eq!(page.page_type, PageType::Product);
    assert!(page.product.is_none());
    let long_name = format!("<h1>{}</h1>", "n".repeat(600));
    assert_eq!(extract_product_name(&Document::parse(&long_name)), None);
}

#[test]
fn review_count_from_content_attribute() {
    let doc = Document::parse(r#"<meta itemprop="reviewCount" content="87">"#);
    assert_eq!(extract_review_count(&doc), Some(87));
    let huge = Document::parse(r#"<span class="review-count">99999999999</span>"#);
    assert_eq!(extract_review_count(&huge), None);
}

#[test]
fn other_pages_carry_no_sub_records() {
    let page = extract_from_html("<p>hello</p>", "https://x.com/about");
    assert_eq!(page.page_type, PageType::Other);
    assert!(page.product.is_none() && page.article.is_none());
    assert_eq!(page.text, "hello");
    assert_eq!(page.url, "https://x.com/about");
    assert_eq!(PageType::Other.name(), "other");
}

#[test]
fn settings_defaults_and_save() {
    let s = get_settings();
    assert_eq!(s.backend_url, "http://localhost:8000");
    assert_eq!(s.local_llm_url, "http://localhost:1234");
    assert_eq!(s.theme, "system");
    assert!(s.auto_summarize);
    assert_eq!(s.language, "en");
    let mut t = Settings::default();
    t.theme = "dark".to_string();
    let saved = save_settings(t).unwrap();
    assert_eq!(saved.theme, "dark");
}
