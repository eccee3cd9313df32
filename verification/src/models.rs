//! The data that the launcher keeps and shows.
use vstd::prelude::*;

verus! {

/// A file, folder or program that the user pinned.
pub struct SavedItem {
    pub name: String,
    pub path: String,
    pub is_dir: bool,
}

/// Everything the launcher stores between runs.
pub struct SavedData {
    pub files: Vec<SavedItem>,
    pub folders: Vec<SavedItem>,
    pub apps: Vec<SavedItem>,
    pub input_history: Vec<String>,
    pub command_history: Vec<String>,
}

/// A web search engine; `{q}` in the template stands for the query.
pub struct SearchEngine {
    pub name: String,
    pub url_template: String,
}

/// An entry of a directory listing.
pub struct FileEntry {
    pub name: String,
    pub path: String,
    pub is_dir: bool,
}

impl SavedData {
    /// The data of a first run: every list empty.
    pub fn empty() -> (d: SavedData)
        ensures
            d.files@.len() == 0,
            d.folders@.len() == 0,
            d.apps@.len() == 0,
            d.input_history@.len() == 0,
            d.command_history@.len() == 0,
    {
        SavedData {
            files: Vec::new(),
            folders: Vec::new(),
            apps: Vec::new(),
            input_history: Vec::new(),
            command_history: Vec::new(),
        }
    }
}

/// The search engines offered: Bing, Baidu and Bilibili, in that order.
pub fn get_search_engines() -> (engines: Vec<SearchEngine>)
    ensures
        engines@.len() == 3,
        engines@[0].name@ == "Bing"@,
        engines@[0].url_template@ == "https://www.bing.com/search?q={q}"@,
        engines@[1].name@ == "百度"@,
        engines@[1].url_template@ == "https://www.baidu.com/s?wd={q}"@,
        engines@[2].name@ == "Bilibili"@,
        engines@[2].url_template@ == "https://search.bilibili.com/all?keyword={q}"@,
{
    let mut engines: Vec<SearchEngine> = Vec::new();
    engines.push(
        SearchEngine {
            name: "Bing".to_owned(),
            url_template: "https://www.bing.com/search?q={q}".to_owned(),
        },
    );
    engines.push(
        SearchEngine {
            name: "百度".to_owned(),
            url_template: "https://www.baidu.com/s?wd={q}".to_owned(),
        },
    );
    engines.push(
        SearchEngine {
            name: "Bilibili".to_owned(),
            url_template: "https://search.bilibili.com/all?keyword={q}".to_owned(),
        },
    );
    engines
}

} // verus!
