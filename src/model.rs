//! The extracted record: page content with optional product and article facts.
use vstd::prelude::*;
use crate::classify::PageType;
use crate::document::opt_view;
use crate::text::strings_view;

verus! {

/// Product facts. Prices and ratings are kept as the decimal text that was
/// read, in a form that `f64`'s `FromStr` accepts.
pub struct ProductInfo {
    pub name: String,
    pub price: Option<String>,
    pub currency: String,
    pub images: Vec<String>,
    pub description: String,
    pub rating: Option<String>,
    pub review_count: Option<i32>,
    pub availability: String,
    pub brand: String,
    pub category: String,
}

pub struct ProductView {
    pub name: Seq<char>,
    pub price: Option<Seq<char>>,
    pub currency: Seq<char>,
    pub images: Seq<Seq<char>>,
    pub description: Seq<char>,
    pub rating: Option<Seq<char>>,
    pub review_count: Option<i32>,
    pub availability: Seq<char>,
    pub brand: Seq<char>,
    pub category: Seq<char>,
}

impl View for ProductInfo {
    type V = ProductView;

    open spec fn view(&self) -> ProductView {
        ProductView {
            name: self.name@,
            price: opt_view(self.price),
            currency: self.currency@,
            images: strings_view(self.images@),
            description: self.description@,
            rating: opt_view(self.rating),
            review_count: self.review_count,
            availability: self.availability@,
            brand: self.brand@,
            category: self.category@,
        }
    }
}

/// Article facts.
pub struct ArticleInfo {
    pub author: String,
    pub publish_date: String,
    pub reading_time: i32,
}

pub struct ArticleView {
    pub author: Seq<char>,
    pub publish_date: Seq<char>,
    pub reading_time: i32,
}

impl View for ArticleInfo {
    type V = ArticleView;

    open spec fn view(&self) -> ArticleView {
        ArticleView {
            author: self.author@,
            publish_date: self.publish_date@,
            reading_time: self.reading_time,
        }
    }
}

/// Everything extracted from one page.
pub struct PageContent {
    pub url: String,
    pub title: String,
    pub description: String,
    pub text: String,
    pub page_type: PageType,
    pub extracted_at: String,
    pub product: Option<ProductInfo>,
    pub article: Option<ArticleInfo>,
}

/// The content of a page record, leaving out when it was extracted.
pub struct ContentView {
    pub url: Seq<char>,
    pub title: Seq<char>,
    pub description: Seq<char>,
    pub text: Seq<char>,
    pub page_type: PageType,
    pub product: Option<ProductView>,
    pub article: Option<ArticleView>,
}

pub open spec fn opt_product_view(p: Option<ProductInfo>) -> Option<ProductView> {
    match p {
        Some(p) => Some(p@),
        None => None,
    }
}

pub open spec fn opt_article_view(a: Option<ArticleInfo>) -> Option<ArticleView> {
    match a {
        Some(a) => Some(a@),
        None => None,
    }
}

impl PageContent {
    pub open spec fn content(&self) -> ContentView {
        ContentView {
            url: self.url@,
            title: self.title@,
            description: self.description@,
            text: self.text@,
            page_type: self.page_type,
            product: opt_product_view(self.product),
            article: opt_article_view(self.article),
        }
    }

    /// Product facts only on product pages; article facts only on article
    /// pages, and only with an author or a publish date.
    pub open spec fn wf(&self) -> bool {
        &&& self.product is Some ==> self.page_type == PageType::Product
        &&& self.article is Some ==> {
            &&& self.page_type == PageType::Article
            &&& self.article->0.author@.len() > 0 || self.article->0.publish_date@.len() > 0
            &&& self.article->0.reading_time >= 1
        }
    }
}

} // verus!
