//! The configuration as a document: which tables and texts stand for a
//! configuration, how a configuration is written as a document and how one
//! is read off a document.
//!
//! A section is a table under its name; a path is a text under the name of
//! its field; a field that is not set has no entry. Entries that no section
//! knows are passed over when a document is read.

use vstd::prelude::*;
use vstd::string::*;

use crate::commands::gh::lib::{Gh, GhView};
use crate::commands::movies::{Movies, MoviesView};
use crate::commands::music::{MusicCliCommand, MusicView};
use crate::commands::sync::{ProgramsConfig, ProgramsView, SyncCliCommand, SyncView};
use crate::config::{Config, ConfigData, ConfigDataView, ConfigView};
use crate::document::{
    document_text, list_value, new_table, parse_table, parsed_document, read_error_text,
    render_table, table_get, table_insert, table_model, table_value, text_value, value_as_array,
    value_as_str, value_as_table, value_model, value_models, write_error_text, DocValue,
};
use crate::errors::{GeneralError, GeneralErrorView};
use crate::location::{
    default_config_location, lies_below, no_home_error, tool_entry, ConfigLocation,
};
use crate::text::{opt_text, texts};

verus! {

/// The tables of a document.
pub type Doc = Map<Seq<char>, DocValue>;

/// A table with one more text, where there is one.
pub open spec fn with_text(doc: Doc, key: Seq<char>, value: Option<Seq<char>>) -> Doc {
    match value {
        Some(s) => doc.insert(key, DocValue::Text(s)),
        None => doc,
    }
}

/// A table with one more table, where there is one.
pub open spec fn with_table(doc: Doc, key: Seq<char>, value: Option<Doc>) -> Doc {
    match value {
        Some(t) => doc.insert(key, DocValue::Table(t)),
        None => doc,
    }
}

/// The list of texts.
pub open spec fn text_list(items: Seq<Seq<char>>) -> Seq<DocValue> {
    Seq::new(items.len(), |i: int| DocValue::Text(items[i]))
}

/// The table of the movies section.
pub open spec fn movies_document(m: MoviesView) -> Doc {
    with_text(
        with_text(Map::empty(), "file_path"@, m.file_path),
        "public_file_path"@,
        m.public_file_path,
    )
}

/// The table of the record of snapshots.
pub open spec fn programs_document(p: ProgramsView) -> Doc {
    with_text(
        with_text(
            with_text(Map::empty(), "path_cargo_programs"@, p.path_cargo_programs),
            "path_vscode_extensions"@,
            p.path_vscode_extensions,
        ),
        "path_nix"@,
        p.path_nix,
    )
}

/// The table of the sync section.
pub open spec fn sync_document(s: SyncView) -> Doc {
    with_table(
        with_text(
            Map::<Seq<char>, DocValue>::empty().insert(
                "file_paths"@,
                DocValue::List(text_list(s.file_paths)),
            ),
            "save_folder_path"@,
            s.save_folder_path,
        ),
        "programs"@,
        match s.programs {
            Some(p) => Some(programs_document(p)),
            None => None,
        },
    )
}

/// The table of the GitHub section.
pub open spec fn gh_document(g: GhView) -> Doc {
    with_text(
        with_text(
            with_text(with_text(Map::empty(), "username"@, g.username), "file_pulls"@, g.file_pulls),
            "file_projects"@,
            g.file_projects,
        ),
        "file_projects_disk"@,
        g.file_projects_disk,
    )
}

/// The table of the music section.
pub open spec fn music_document(m: MusicView) -> Doc {
    with_text(with_text(Map::empty(), "music_file"@, m.music_file), "env_path"@, m.env_path)
}

/// The document of a configuration.
pub open spec fn config_document(c: ConfigDataView) -> Doc {
    with_table(
        with_table(
            with_table(
                with_table(
                    Map::empty(),
                    "movies"@,
                    match c.movies {
                        Some(m) => Some(movies_document(m)),
                        None => None,
                    },
                ),
                "sync"@,
                match c.sync {
                    Some(s) => Some(sync_document(s)),
                    None => None,
                },
            ),
            "gh"@,
            match c.gh {
                Some(g) => Some(gh_document(g)),
                None => None,
            },
        ),
        "music"@,
        match c.music {
            Some(m) => Some(music_document(m)),
            None => None,
        },
    )
}

/// The complaint about an entry of the wrong kind.
pub open spec fn invalid_at(path: Seq<char>) -> Seq<char> {
    "invalid value for `"@ + path + "` in the configuration"@
}

/// The complaint about an entry that has to be there and is not.
pub open spec fn missing_at(path: Seq<char>) -> Seq<char> {
    "missing field `"@ + path + "` in the configuration"@
}

/// The text under a key: none where the table has no such entry, a
/// complaint where the entry is no text.
pub open spec fn text_at(doc: Doc, key: Seq<char>, path: Seq<char>) -> Result<
    Option<Seq<char>>,
    Seq<char>,
> {
    if !doc.contains_key(key) {
        Ok(None)
    } else {
        match doc[key] {
            DocValue::Text(s) => Ok(Some(s)),
            _ => Err(invalid_at(path)),
        }
    }
}

/// The table under a key: none where the table has no such entry, a
/// complaint where the entry is no table.
pub open spec fn table_at(doc: Doc, key: Seq<char>, path: Seq<char>) -> Result<
    Option<Doc>,
    Seq<char>,
> {
    if !doc.contains_key(key) {
        Ok(None)
    } else {
        match doc[key] {
            DocValue::Table(t) => Ok(Some(t)),
            _ => Err(invalid_at(path)),
        }
    }
}

/// Whether every item of a list is a text.
pub open spec fn all_texts(items: Seq<DocValue>) -> bool {
    forall|i: int| 0 <= i < items.len() ==> (#[trigger] items[i]) is Text
}

/// The texts of a list of texts.
pub open spec fn list_texts(items: Seq<DocValue>) -> Seq<Seq<char>> {
    Seq::new(items.len(), |i: int| items[i]->Text_0)
}

/// The list of texts under a key: a complaint where the table has no such
/// entry, and where the entry is no list of texts.
pub open spec fn texts_at(doc: Doc, key: Seq<char>, path: Seq<char>) -> Result<
    Seq<Seq<char>>,
    Seq<char>,
> {
    if !doc.contains_key(key) {
        Err(missing_at(path))
    } else {
        match doc[key] {
            DocValue::List(items) => if all_texts(items) {
                Ok(list_texts(items))
            } else {
                Err(invalid_at(path))
            },
            _ => Err(invalid_at(path)),
        }
    }
}

/// The movies section that a table stands for.
pub open spec fn document_movies(doc: Doc) -> Result<MoviesView, Seq<char>> {
    match text_at(doc, "file_path"@, "movies.file_path"@) {
        Err(e) => Err(e),
        Ok(file_path) => match text_at(doc, "public_file_path"@, "movies.public_file_path"@) {
            Err(e) => Err(e),
            Ok(public_file_path) => Ok(MoviesView { file_path, public_file_path }),
        },
    }
}

/// The record of snapshots that a table stands for.
pub open spec fn document_programs(doc: Doc) -> Result<ProgramsView, Seq<char>> {
    match text_at(doc, "path_cargo_programs"@, "sync.programs.path_cargo_programs"@) {
        Err(e) => Err(e),
        Ok(path_cargo_programs) => match text_at(
            doc,
            "path_vscode_extensions"@,
            "sync.programs.path_vscode_extensions"@,
        ) {
            Err(e) => Err(e),
            Ok(path_vscode_extensions) => match text_at(
                doc,
                "path_nix"@,
                "sync.programs.path_nix"@,
            ) {
                Err(e) => Err(e),
                Ok(path_nix) => Ok(
                    ProgramsView { path_cargo_programs, path_vscode_extensions, path_nix },
                ),
            },
        },
    }
}

/// The sync section that a table stands for.
pub open spec fn document_sync(doc: Doc) -> Result<SyncView, Seq<char>> {
    match texts_at(doc, "file_paths"@, "sync.file_paths"@) {
        Err(e) => Err(e),
        Ok(file_paths) => match text_at(doc, "save_folder_path"@, "sync.save_folder_path"@) {
            Err(e) => Err(e),
            Ok(save_folder_path) => match table_at(doc, "programs"@, "sync.programs"@) {
                Err(e) => Err(e),
                Ok(None) => Ok(SyncView { file_paths, save_folder_path, programs: None }),
                Ok(Some(t)) => match document_programs(t) {
                    Err(e) => Err(e),
                    Ok(p) => Ok(SyncView { file_paths, save_folder_path, programs: Some(p) }),
                },
            },
        },
    }
}

/// The GitHub section that a table stands for.
pub open spec fn document_gh(doc: Doc) -> Result<GhView, Seq<char>> {
    match text_at(doc, "username"@, "gh.username"@) {
        Err(e) => Err(e),
        Ok(username) => match text_at(doc, "file_pulls"@, "gh.file_pulls"@) {
            Err(e) => Err(e),
            Ok(file_pulls) => match text_at(doc, "file_projects"@, "gh.file_projects"@) {
                Err(e) => Err(e),
                Ok(file_projects) => match text_at(
                    doc,
                    "file_projects_disk"@,
                    "gh.file_projects_disk"@,
                ) {
                    Err(e) => Err(e),
                    Ok(file_projects_disk) => Ok(
                        GhView { username, file_pulls, file_projects, file_projects_disk },
                    ),
                },
            },
        },
    }
}

/// The music section that a table stands for.
pub open spec fn document_music(doc: Doc) -> Result<MusicView, Seq<char>> {
    match text_at(doc, "music_file"@, "music.music_file"@) {
        Err(e) => Err(e),
        Ok(music_file) => match text_at(doc, "env_path"@, "music.env_path"@) {
            Err(e) => Err(e),
            Ok(env_path) => Ok(MusicView { music_file, env_path }),
        },
    }
}

/// The movies section of a document, where it has one.
pub open spec fn movies_section(doc: Doc) -> Result<Option<MoviesView>, Seq<char>> {
    match table_at(doc, "movies"@, "movies"@) {
        Err(e) => Err(e),
        Ok(None) => Ok(None),
        Ok(Some(t)) => match document_movies(t) {
            Err(e) => Err(e),
            Ok(m) => Ok(Some(m)),
        },
    }
}

/// The sync section of a document, where it has one.
pub open spec fn sync_section(doc: Doc) -> Result<Option<SyncView>, Seq<char>> {
    match table_at(doc, "sync"@, "sync"@) {
        Err(e) => Err(e),
        Ok(None) => Ok(None),
        Ok(Some(t)) => match document_sync(t) {
            Err(e) => Err(e),
            Ok(s) => Ok(Some(s)),
        },
    }
}

/// The GitHub section of a document, where it has one.
pub open spec fn gh_section(doc: Doc) -> Result<Option<GhView>, Seq<char>> {
    match table_at(doc, "gh"@, "gh"@) {
        Err(e) => Err(e),
        Ok(None) => Ok(None),
        Ok(Some(t)) => match document_gh(t) {
            Err(e) => Err(e),
            Ok(g) => Ok(Some(g)),
        },
    }
}

/// The music section of a document, where it has one.
pub open spec fn music_section(doc: Doc) -> Result<Option<MusicView>, Seq<char>> {
    match table_at(doc, "music"@, "music"@) {
        Err(e) => Err(e),
        Ok(None) => Ok(None),
        Ok(Some(t)) => match document_music(t) {
            Err(e) => Err(e),
            Ok(m) => Ok(Some(m)),
        },
    }
}

/// The configuration that a document stands for, or the complaint about the
/// first entry that is not as it has to be.
pub open spec fn document_config(doc: Doc) -> Result<ConfigDataView, Seq<char>> {
    match movies_section(doc) {
        Err(e) => Err(e),
        Ok(movies) => match sync_section(doc) {
            Err(e) => Err(e),
            Ok(sync) => match gh_section(doc) {
                Err(e) => Err(e),
                Ok(gh) => match music_section(doc) {
                    Err(e) => Err(e),
                    Ok(music) => Ok(ConfigDataView { movies, sync, gh, music }),
                },
            },
        },
    }
}

/// The names of the entries of one table are pairwise different.
proof fn lemma_names_differ()
    ensures
        "file_path"@ != "public_file_path"@,
        "path_cargo_programs"@ != "path_vscode_extensions"@,
        "path_cargo_programs"@ != "path_nix"@,
        "path_vscode_extensions"@ != "path_nix"@,
        "file_paths"@ != "save_folder_path"@,
        "file_paths"@ != "programs"@,
        "save_folder_path"@ != "programs"@,
        "username"@ != "file_pulls"@,
        "username"@ != "file_projects"@,
        "username"@ != "file_projects_disk"@,
        "file_pulls"@ != "file_projects"@,
        "file_pulls"@ != "file_projects_disk"@,
        "file_projects"@ != "file_projects_disk"@,
        "music_file"@ != "env_path"@,
        "movies"@ != "sync"@,
        "movies"@ != "gh"@,
        "movies"@ != "music"@,
        "sync"@ != "gh"@,
        "sync"@ != "music"@,
        "gh"@ != "music"@,
{
    reveal_strlit("file_path");
    reveal_strlit("public_file_path");
    reveal_strlit("path_cargo_programs");
    reveal_strlit("path_vscode_extensions");
    reveal_strlit("path_nix");
    reveal_strlit("file_paths");
    reveal_strlit("save_folder_path");
    reveal_strlit("programs");
    reveal_strlit("username");
    reveal_strlit("file_pulls");
    reveal_strlit("file_projects");
    reveal_strlit("file_projects_disk");
    reveal_strlit("music_file");
    reveal_strlit("env_path");
    reveal_strlit("movies");
    reveal_strlit("sync");
    reveal_strlit("gh");
    reveal_strlit("music");
    assert("file_path"@.len() == 9 && "public_file_path"@.len() == 16);
    assert("path_cargo_programs"@.len() == 19 && "path_vscode_extensions"@.len() == 22
        && "path_nix"@.len() == 8);
    assert("file_paths"@.len() == 10 && "save_folder_path"@.len() == 16 && "programs"@.len()
        == 8);
    assert("username"@.len() == 8 && "file_pulls"@.len() == 10 && "file_projects"@.len() == 13
        && "file_projects_disk"@.len() == 18);
    assert("music_file"@.len() == 10 && "env_path"@.len() == 8);
    assert("movies"@.len() == 6 && "sync"@.len() == 4 && "gh"@.len() == 2 && "music"@.len()
        == 5);
}

/// Reading the table of a movies section gives the section back.
pub proof fn lemma_movies_round_trip(m: MoviesView)
    ensures
        document_movies(movies_document(m)) == Ok::<MoviesView, Seq<char>>(m),
{
    lemma_names_differ();
}

/// Reading the table of a record of snapshots gives the record back.
pub proof fn lemma_programs_round_trip(p: ProgramsView)
    ensures
        document_programs(programs_document(p)) == Ok::<ProgramsView, Seq<char>>(p),
{
    lemma_names_differ();
}

/// Reading the table of a sync section gives the section back.
pub proof fn lemma_sync_round_trip(s: SyncView)
    ensures
        document_sync(sync_document(s)) == Ok::<SyncView, Seq<char>>(s),
{
    lemma_names_differ();
    let items = text_list(s.file_paths);
    assert(all_texts(items));
    assert(list_texts(items) =~= s.file_paths);
    let doc = sync_document(s);
    assert(doc.contains_key("file_paths"@));
    assert(doc["file_paths"@] == DocValue::List(items));
    assert(texts_at(doc, "file_paths"@, "sync.file_paths"@) == Ok::<Seq<Seq<char>>, Seq<char>>(
        s.file_paths,
    ));
    assert(text_at(doc, "save_folder_path"@, "sync.save_folder_path"@) == Ok::<
        Option<Seq<char>>,
        Seq<char>,
    >(s.save_folder_path));
    match s.programs {
        Some(p) => {
            lemma_programs_round_trip(p);
            assert(doc["programs"@] == DocValue::Table(programs_document(p)));
        },
        None => {
            assert(!doc.contains_key("programs"@));
        },
    }
}

/// Reading the table of a GitHub section gives the section back.
pub proof fn lemma_gh_round_trip(g: GhView)
    ensures
        document_gh(gh_document(g)) == Ok::<GhView, Seq<char>>(g),
{
    lemma_names_differ();
}

/// Reading the table of a music section gives the section back.
pub proof fn lemma_music_round_trip(m: MusicView)
    ensures
        document_music(music_document(m)) == Ok::<MusicView, Seq<char>>(m),
{
    lemma_names_differ();
}

/// Reading the document of a configuration gives the configuration back:
/// every section that is present with every field that is set, and every
/// section that is absent as absent.
pub proof fn lemma_document_round_trip(c: ConfigDataView)
    ensures
        document_config(config_document(c)) == Ok::<ConfigDataView, Seq<char>>(c),
{
    lemma_names_differ();
    let doc = config_document(c);
    match c.movies {
        Some(m) => {
            lemma_movies_round_trip(m);
            assert(doc["movies"@] == DocValue::Table(movies_document(m)));
        },
        None => {
            assert(!doc.contains_key("movies"@));
        },
    }
    assert(movies_section(doc) == Ok::<Option<MoviesView>, Seq<char>>(c.movies));
    match c.sync {
        Some(s) => {
            lemma_sync_round_trip(s);
            assert(doc["sync"@] == DocValue::Table(sync_document(s)));
        },
        None => {
            assert(!doc.contains_key("sync"@));
        },
    }
    assert(sync_section(doc) == Ok::<Option<SyncView>, Seq<char>>(c.sync));
    match c.gh {
        Some(g) => {
            lemma_gh_round_trip(g);
            assert(doc["gh"@] == DocValue::Table(gh_document(g)));
        },
        None => {
            assert(!doc.contains_key("gh"@));
        },
    }
    assert(gh_section(doc) == Ok::<Option<GhView>, Seq<char>>(c.gh));
    match c.music {
        Some(m) => {
            lemma_music_round_trip(m);
            assert(doc["music"@] == DocValue::Table(music_document(m)));
        },
        None => {
            assert(!doc.contains_key("music"@));
        },
    }
    assert(music_section(doc) == Ok::<Option<MusicView>, Seq<char>>(c.music));
}

/// The error that carries a complaint.
pub open spec fn complaint(message: Seq<char>) -> GeneralErrorView {
    GeneralErrorView { message, source: None }
}

/// The table of a document.
pub type Table = toml::map::Map<String, toml::Value>;

fn put_text(table: &mut Table, key: &str, value: &Option<String>)
    ensures
        table_model(*final(table)) == with_text(table_model(*old(table)), key@, opt_text(*value)),
{
    match value {
        Some(s) => {
            table_insert(table, String::from_str(key), text_value(s.clone()));
        },
        None => {},
    }
}

fn put_table(table: &mut Table, key: &str, value: Option<Table>)
    ensures
        table_model(*final(table)) == with_table(
            table_model(*old(table)),
            key@,
            match value {
                Some(t) => Some(table_model(t)),
                None => None,
            },
        ),
{
    match value {
        Some(t) => {
            table_insert(table, String::from_str(key), table_value(t));
        },
        None => {},
    }
}

fn movies_table(m: &Movies) -> (table: Table)
    ensures
        table_model(table) == movies_document(m@),
{
    let mut table = new_table();
    put_text(&mut table, "file_path", &m.file_path);
    put_text(&mut table, "public_file_path", &m.public_file_path);
    table
}

fn programs_table(p: &ProgramsConfig) -> (table: Table)
    ensures
        table_model(table) == programs_document(p@),
{
    let mut table = new_table();
    put_text(&mut table, "path_cargo_programs", &p.path_cargo_programs);
    put_text(&mut table, "path_vscode_extensions", &p.path_vscode_extensions);
    put_text(&mut table, "path_nix", &p.path_nix);
    table
}

fn sync_table(s: &SyncCliCommand) -> (table: Table)
    ensures
        table_model(table) == sync_document(s@),
{
    let mut items: Vec<toml::Value> = Vec::new();
    let mut i: usize = 0;
    while i < s.file_paths.len()
        invariant
            i <= s.file_paths.len(),
            items.len() == i,
            forall|k: int|
                0 <= k < i ==> value_model(#[trigger] items[k]) == DocValue::Text(
                    s.file_paths[k]@,
                ),
        decreases s.file_paths.len() - i,
    {
        items.push(text_value(s.file_paths[i].clone()));
        i += 1;
    }
    assert(value_models(items@) =~= text_list(s@.file_paths));
    let mut table = new_table();
    table_insert(&mut table, String::from_str("file_paths"), list_value(items));
    put_text(&mut table, "save_folder_path", &s.save_folder_path);
    let programs = match &s.programs {
        Some(p) => Some(programs_table(p)),
        None => None,
    };
    put_table(&mut table, "programs", programs);
    table
}

fn gh_table(g: &Gh) -> (table: Table)
    ensures
        table_model(table) == gh_document(g@),
{
    let mut table = new_table();
    put_text(&mut table, "username", &g.username);
    put_text(&mut table, "file_pulls", &g.file_pulls);
    put_text(&mut table, "file_projects", &g.file_projects);
    put_text(&mut table, "file_projects_disk", &g.file_projects_disk);
    table
}

fn music_table(m: &MusicCliCommand) -> (table: Table)
    ensures
        table_model(table) == music_document(m@),
{
    let mut table = new_table();
    put_text(&mut table, "music_file", &m.music_file);
    put_text(&mut table, "env_path", &m.env_path);
    table
}

/// Builds the document of a configuration.
pub fn config_table(c: &ConfigData) -> (table: Table)
    ensures
        table_model(table) == config_document(c@),
{
    let mut table = new_table();
    let movies = match &c.movies {
        Some(m) => Some(movies_table(m)),
        None => None,
    };
    put_table(&mut table, "movies", movies);
    let sync = match &c.sync {
        Some(s) => Some(sync_table(s)),
        None => None,
    };
    put_table(&mut table, "sync", sync);
    let gh = match &c.gh {
        Some(g) => Some(gh_table(g)),
        None => None,
    };
    put_table(&mut table, "gh", gh);
    let music = match &c.music {
        Some(m) => Some(music_table(m)),
        None => None,
    };
    put_table(&mut table, "music", music);
    table
}

fn invalid(path: &str) -> (e: GeneralError)
    ensures
        e@ == complaint(invalid_at(path@)),
{
    let mut message = String::from_str("invalid value for `");
    message.append(path);
    message.append("` in the configuration");
    GeneralError::from(message)
}

fn missing(path: &str) -> (e: GeneralError)
    ensures
        e@ == complaint(missing_at(path@)),
{
    let mut message = String::from_str("missing field `");
    message.append(path);
    message.append("` in the configuration");
    GeneralError::from(message)
}

fn text_field(table: &Table, key: &str, path: &str) -> (r: Result<Option<String>, GeneralError>)
    ensures
        match text_at(table_model(*table), key@, path@) {
            Ok(expected) => r matches Ok(found) && opt_text(found) == expected,
            Err(message) => r matches Err(e) && e@ == complaint(message),
        },
{
    match table_get(table, key) {
        None => Ok(None),
        Some(value) => match value_as_str(value) {
            Some(s) => Ok(Some(String::from_str(s))),
            None => Err(invalid(path)),
        },
    }
}

fn table_field<'a>(table: &'a Table, key: &str, path: &str) -> (r: Result<
    Option<&'a Table>,
    GeneralError,
>)
    ensures
        match table_at(table_model(*table), key@, path@) {
            Ok(Some(expected)) => r matches Ok(Some(found)) && table_model(*found) == expected,
            Ok(None) => r matches Ok(None),
            Err(message) => r matches Err(e) && e@ == complaint(message),
        },
{
    match table_get(table, key) {
        None => Ok(None),
        Some(value) => match value_as_table(value) {
            Some(t) => Ok(Some(t)),
            None => Err(invalid(path)),
        },
    }
}

fn texts_field(table: &Table, key: &str, path: &str) -> (r: Result<Vec<String>, GeneralError>)
    ensures
        match texts_at(table_model(*table), key@, path@) {
            Ok(expected) => r matches Ok(found) && texts(found@) == expected,
            Err(message) => r matches Err(e) && e@ == complaint(message),
        },
{
    match table_get(table, key) {
        None => Err(missing(path)),
        Some(value) => match value_as_array(value) {
            None => Err(invalid(path)),
            Some(items) => {
                let ghost models = value_models(items@);
                let mut found: Vec<String> = Vec::new();
                let mut i: usize = 0;
                while i < items.len()
                    invariant
                        i <= items.len(),
                        models == value_models(items@),
                        table_model(*table).contains_key(key@),
                        table_model(*table)[key@] == DocValue::List(models),
                        found.len() == i,
                        forall|k: int| 0 <= k < i ==> (#[trigger] models[k]) is Text,
                        forall|k: int| 0 <= k < i ==> found[k]@ == models[k]->Text_0,
                    decreases items.len() - i,
                {
                    assert(models[i as int] == value_model(items[i as int]));
                    match value_as_str(&items[i]) {
                        Some(s) => {
                            found.push(String::from_str(s));
                        },
                        None => {
                            assert(!(models[i as int] is Text));
                            assert(!all_texts(models));
                            return Err(invalid(path));
                        },
                    }
                    i += 1;
                }
                assert(all_texts(models));
                assert(texts(found@) =~= list_texts(models));
                Ok(found)
            },
        },
    }
}

fn movies_from(table: &Table) -> (r: Result<Movies, GeneralError>)
    ensures
        match document_movies(table_model(*table)) {
            Ok(expected) => r matches Ok(found) && found@ == expected,
            Err(message) => r matches Err(e) && e@ == complaint(message),
        },
{
    let file_path = match text_field(table, "file_path", "movies.file_path") {
        Ok(v) => v,
        Err(e) => {
            return Err(e);
        },
    };
    let public_file_path = match text_field(table, "public_file_path", "movies.public_file_path") {
        Ok(v) => v,
        Err(e) => {
            return Err(e);
        },
    };
    Ok(Movies { file_path, public_file_path })
}

fn programs_from(table: &Table) -> (r: Result<ProgramsConfig, GeneralError>)
    ensures
        match document_programs(table_model(*table)) {
            Ok(expected) => r matches Ok(found) && found@ == expected,
            Err(message) => r matches Err(e) && e@ == complaint(message),
        },
{
    let path_cargo_programs = match text_field(
        table,
        "path_cargo_programs",
        "sync.programs.path_cargo_programs",
    ) {
        Ok(v) => v,
        Err(e) => {
            return Err(e);
        },
    };
    let path_vscode_extensions = match text_field(
        table,
        "path_vscode_extensions",
        "sync.programs.path_vscode_extensions",
    ) {
        Ok(v) => v,
        Err(e) => {
            return Err(e);
        },
    };
    let path_nix = match text_field(table, "path_nix", "sync.programs.path_nix") {
        Ok(v) => v,
        Err(e) => {
            return Err(e);
        },
    };
    Ok(ProgramsConfig { path_cargo_programs, path_vscode_extensions, path_nix })
}

fn sync_from(table: &Table) -> (r: Result<SyncCliCommand, GeneralError>)
    ensures
        match document_sync(table_model(*table)) {
            Ok(expected) => r matches Ok(found) && found@ == expected,
            Err(message) => r matches Err(e) && e@ == complaint(message),
        },
{
    let file_paths = match texts_field(table, "file_paths", "sync.file_paths") {
        Ok(v) => v,
        Err(e) => {
            return Err(e);
        },
    };
    let save_folder_path = match text_field(table, "save_folder_path", "sync.save_folder_path") {
        Ok(v) => v,
        Err(e) => {
            return Err(e);
        },
    };
    let programs = match table_field(table, "programs", "sync.programs") {
        Ok(Some(t)) => match programs_from(t) {
            Ok(p) => Some(p),
            Err(e) => {
                return Err(e);
            },
        },
        Ok(None) => None,
        Err(e) => {
            return Err(e);
        },
    };
    Ok(SyncCliCommand { file_paths, save_folder_path, programs })
}

fn gh_from(table: &Table) -> (r: Result<Gh, GeneralError>)
    ensures
        match document_gh(table_model(*table)) {
            Ok(expected) => r matches Ok(found) && found@ == expected,
            Err(message) => r matches Err(e) && e@ == complaint(message),
        },
{
    let username = match text_field(table, "username", "gh.username") {
        Ok(v) => v,
        Err(e) => {
            return Err(e);
        },
    };
    let file_pulls = match text_field(table, "file_pulls", "gh.file_pulls") {
        Ok(v) => v,
        Err(e) => {
            return Err(e);
        },
    };
    let file_projects = match text_field(table, "file_projects", "gh.file_projects") {
        Ok(v) => v,
        Err(e) => {
            return Err(e);
        },
    };
    let file_projects_disk = match text_field(
        table,
        "file_projects_disk",
        "gh.file_projects_disk",
    ) {
        Ok(v) => v,
        Err(e) => {
            return Err(e);
        },
    };
    Ok(Gh { username, file_pulls, file_projects, file_projects_disk })
}

fn music_from(table: &Table) -> (r: Result<MusicCliCommand, GeneralError>)
    ensures
        match document_music(table_model(*table)) {
            Ok(expected) => r matches Ok(found) && found@ == expected,
            Err(message) => r matches Err(e) && e@ == complaint(message),
        },
{
    let music_file = match text_field(table, "music_file", "music.music_file") {
        Ok(v) => v,
        Err(e) => {
            return Err(e);
        },
    };
    let env_path = match text_field(table, "env_path", "music.env_path") {
        Ok(v) => v,
        Err(e) => {
            return Err(e);
        },
    };
    Ok(MusicCliCommand { music_file, env_path })
}

/// Reads a configuration off a document: the configuration that the
/// document stands for, or the complaint about its first entry that is not
/// as it has to be.
pub fn config_from_table(table: &Table) -> (r: Result<ConfigData, GeneralError>)
    ensures
        match document_config(table_model(*table)) {
            Ok(expected) => r matches Ok(found) && found@ == expected,
            Err(message) => r matches Err(e) && e@ == complaint(message),
        },
{
    let movies = match table_field(table, "movies", "movies") {
        Ok(Some(t)) => match movies_from(t) {
            Ok(m) => Some(m),
            Err(e) => {
                return Err(e);
            },
        },
        Ok(None) => None,
        Err(e) => {
            return Err(e);
        },
    };
    let sync = match table_field(table, "sync", "sync") {
        Ok(Some(t)) => match sync_from(t) {
            Ok(s) => Some(s),
            Err(e) => {
                return Err(e);
            },
        },
        Ok(None) => None,
        Err(e) => {
            return Err(e);
        },
    };
    let gh = match table_field(table, "gh", "gh") {
        Ok(Some(t)) => match gh_from(t) {
            Ok(g) => Some(g),
            Err(e) => {
                return Err(e);
            },
        },
        Ok(None) => None,
        Err(e) => {
            return Err(e);
        },
    };
    let music = match table_field(table, "music", "music") {
        Ok(Some(t)) => match music_from(t) {
            Ok(m) => Some(m),
            Err(e) => {
                return Err(e);
            },
        },
        Ok(None) => None,
        Err(e) => {
            return Err(e);
        },
    };
    Ok(ConfigData { movies, sync, gh, music })
}

/// What reading a configuration file at a path gives for a text: the
/// configuration that the document of the text stands for.
pub open spec fn parsed_config(text: Seq<char>, path: Seq<char>, r: Result<
    Config,
    GeneralError,
>) -> bool {
    match parsed_document(text) {
        None => r matches Err(e) && e@.source == Some(e@.message),
        Some(doc) => match document_config(doc) {
            Ok(data) => r matches Ok(config) && config@ == (ConfigView {
                debug: 0,
                use_input: true,
                config_path: path,
                config_data: data,
            }),
            Err(message) => r matches Err(e) && e@ == complaint(message),
        },
    }
}

/// What writing a configuration gives: the text of its document, or the
/// error for a document that has none.
pub open spec fn saved(data: ConfigDataView, r: Result<String, GeneralError>) -> bool {
    match document_text(config_document(data)) {
        Some(text) => r matches Ok(written) && written@ == text,
        None => r matches Err(e) && e@.source == Some(e@.message),
    }
}

/// The error for a configuration file that cannot be opened.
pub open spec fn unreadable(path: Seq<char>, cause: Seq<char>) -> GeneralErrorView {
    complaint("Unable to open '"@ + path + "': "@ + cause)
}

/// What the contents of the configuration file at a path give: the
/// configuration that the text is read as, or the error for a file that
/// could not be read, with the reason.
pub open spec fn config_read(
    path: Seq<char>,
    contents: Result<String, String>,
    r: Result<Config, GeneralError>,
) -> bool {
    match contents {
        Ok(text) => parsed_config(text@, path, r),
        Err(cause) => r matches Err(e) && e@ == unreadable(path, cause@),
    }
}

impl Config {
    /// Parse the config file: the text is read as a document and the
    /// configuration is read off it. A text that is no document, and a
    /// document that holds an entry of the wrong kind, is an error; nothing
    /// is made up in its place.
    pub fn parse_config(str_config: &str, path_config: String) -> (r: Result<Config, GeneralError>)
        ensures
            parsed_config(str_config@, path_config@, r),
    {
        match parse_table(str_config) {
            Ok(table) => match config_from_table(&table) {
                Ok(config_data) => Ok(
                    Config { debug: 0, use_input: true, config_path: path_config, config_data },
                ),
                Err(e) => Err(e),
            },
            Err(e) => {
                let text = read_error_text(&e);
                Err(GeneralError::new_with_source(text.clone(), text))
            },
        }
    }

    /// The text of the config file for the configuration as it is: the text
    /// that the document of the configuration is written as. A document
    /// that has no text is an error whose message and cause are the text of
    /// the failure.
    pub fn save(&self) -> (r: Result<String, GeneralError>)
        ensures
            saved(self@.config_data, r),
    {
        let table = config_table(&self.config_data);
        match render_table(&table) {
            Ok(text) => Ok(text),
            Err(e) => {
                let text = write_error_text(&e);
                Err(GeneralError::new_with_source(text.clone(), text))
            },
        }
    }

    /// Create a new Config object from a custom path. `contents` is the
    /// text of the file, or the reason why it could not be read.
    pub fn try_new_from_path(custom_path: String, contents: Result<String, String>) -> (r: Result<
        Config,
        GeneralError,
    >)
        ensures
            config_read(custom_path@, contents, r),
    {
        match contents {
            Ok(text) => Config::parse_config(text.as_str(), custom_path),
            Err(cause) => {
                let mut message = String::from_str("Unable to open '");
                message.append(custom_path.as_str());
                message.append("': ");
                message.append(cause.as_str());
                Err(GeneralError::from(message))
            },
        }
    }

    /// Create a new Config object for the file at a given location, or
    /// hand on the failure to tell the location. `contents` is the text of
    /// the file, or the reason why it could not be read.
    pub fn try_new_at(
        location: Result<ConfigLocation, GeneralError>,
        contents: Result<String, String>,
    ) -> (r: Result<Config, GeneralError>)
        ensures
            match location {
                Err(failure) => r == Err::<Config, GeneralError>(failure),
                Ok(place) => config_read(place.file@, contents, r),
            },
    {
        match location {
            Ok(place) => Config::try_new_from_path(place.file, contents),
            Err(failure) => Err(failure),
        }
    }

    /// Get the path to the config file, with the directory that holds it:
    /// the file `config.toml` in the directory of the tool below the home
    /// directory that the system tells, or the error for a home directory
    /// that cannot be told.
    pub fn get_config_path() -> (r: Result<ConfigLocation, GeneralError>)
        ensures
            match r {
                Ok(place) => exists|home: Seq<char>| lies_below(place, home),
                Err(e) => e@ == no_home_error(),
            },
    {
        default_config_location()
    }

    /// Create a new Config object from the default path. `contents` is the
    /// text of the file at that path, or the reason why it could not be
    /// read. Where the system tells no home directory, that is the error;
    /// where it tells one, the result is what the contents give for the
    /// config file below it.
    pub fn try_new(contents: Result<String, String>) -> (r: Result<Config, GeneralError>)
        ensures
            (r matches Err(e) && e@ == no_home_error()) || exists|home: Seq<char>|
                home.len() > 0 && #[trigger] config_read(
                    tool_entry(home, "config.toml"@),
                    contents,
                    r,
                ),
    {
        let location = Config::get_config_path();
        let ghost told = location;
        let r = Config::try_new_at(location, contents);
        proof {
            if let Ok(place) = told {
                let home = choose|home: Seq<char>| lies_below(place, home);
                assert(config_read(tool_entry(home, "config.toml"@), contents, r));
            }
        }
        r
    }
}

} // verus!
