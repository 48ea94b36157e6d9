//! What a run generates: versions, dependencies, the settings of the type
//! checker and of the test runner, and the program template.

use crate::text::same_text;
use vstd::prelude::*;

verus! {

/// Dependencies by name, each with a version constraint. A name occurs once;
/// the entries keep the order in which their names first arrived.
#[derive(Debug)]
pub struct Dependencies {
    entries: Vec<(String, String)>,
}

/// No two entries of a list of (name, version) pairs share a name.
pub open spec fn names_differ(entries: Seq<(Seq<char>, Seq<char>)>) -> bool {
    forall|i: int, j: int| 0 <= i < j < entries.len() ==> entries[i].0 != entries[j].0
}

/// No entry of a list of (name, version) pairs has an empty name.
pub open spec fn names_are_given(entries: Seq<(Seq<char>, Seq<char>)>) -> bool {
    forall|i: int| 0 <= i < entries.len() ==> entries[i].0.len() > 0
}

/// The position of a name in a list of (name, version) pairs, if it is there.
pub open spec fn position_of(entries: Seq<(Seq<char>, Seq<char>)>, name: Seq<char>) -> Option<int>
    decreases entries.len(),
{
    if entries.len() == 0 {
        None
    } else if position_of(entries.drop_last(), name) is Some {
        position_of(entries.drop_last(), name)
    } else if entries.last().0 == name {
        Some(entries.len() - 1)
    } else {
        None
    }
}

/// The names of a list of (name, version) pairs, in order.
pub open spec fn names_of(entries: Seq<(Seq<char>, Seq<char>)>) -> Seq<Seq<char>> {
    Seq::new(entries.len(), |i: int| entries[i].0)
}

/// A list of (name, version) pairs after `name` got `version`: the entry of
/// that name is replaced where it stands, or a new entry comes last.
pub open spec fn with_entry(
    entries: Seq<(Seq<char>, Seq<char>)>,
    name: Seq<char>,
    version: Seq<char>,
) -> Seq<(Seq<char>, Seq<char>)> {
    match position_of(entries, name) {
        Some(at) => entries.update(at, (name, version)),
        None => entries.push((name, version)),
    }
}

/// Where `position_of` finds a name, the name stands; where it finds none,
/// no entry has the name.
pub proof fn lemma_position_of(entries: Seq<(Seq<char>, Seq<char>)>, name: Seq<char>)
    ensures
        match position_of(entries, name) {
            Some(at) => 0 <= at < entries.len() && entries[at].0 == name && forall|i: int|
                0 <= i < at ==> entries[i].0 != name,
            None => forall|i: int| 0 <= i < entries.len() ==> entries[i].0 != name,
        },
    decreases entries.len(),
{
    if entries.len() > 0 {
        let front = entries.drop_last();
        lemma_position_of(front, name);
        assert(forall|i: int| 0 <= i < front.len() ==> front[i] == entries[i]);
    }
}

/// A list of (name, version) pairs with each text as a sequence of characters.
pub open spec fn pairs_view(list: Seq<(String, String)>) -> Seq<(Seq<char>, Seq<char>)> {
    Seq::new(list.len(), |i: int| (list[i].0@, list[i].1@))
}

impl View for Dependencies {
    type V = Seq<(Seq<char>, Seq<char>)>;

    closed spec fn view(&self) -> Seq<(Seq<char>, Seq<char>)> {
        pairs_view(self.entries@)
    }
}

impl Dependencies {
    #[verifier::type_invariant]
    spec fn distinct(&self) -> bool {
        names_differ(self@)
    }

    /// No dependencies.
    pub fn new() -> (made: Self)
        ensures
            made@ == Seq::<(Seq<char>, Seq<char>)>::empty(),
    {
        let made = Dependencies { entries: Vec::new() };
        assert(made@ =~= Seq::<(Seq<char>, Seq<char>)>::empty());
        made
    }

    /// Records `version` for `name`. Where the name is there already, its
    /// version is replaced and the earlier one handed back.
    pub fn insert(&mut self, name: String, version: String) -> (previous: Option<String>)
        ensures
            final(self)@ == with_entry(old(self)@, name@, version@),
            match position_of(old(self)@, name@) {
                Some(at) => previous matches Some(earlier) && earlier@ == old(self)@[at].1,
                None => previous is None,
            },
            names_differ(final(self)@),
            names_are_given(old(self)@) && name@.len() > 0 ==> names_are_given(final(self)@),
    {
        proof {
            use_type_invariant(&*self);
            lemma_position_of(self@, name@);
        }
        let ghost before = self@;
        let mut found: Option<usize> = None;
        let mut i: usize = 0;
        while i < self.entries.len() && found.is_none()
            invariant
                i <= self.entries.len(),
                self@ == before,
                found matches Some(at) ==> at < before.len() && before[at as int].0 == name@,
                found is None ==> forall|j: int| 0 <= j < i ==> before[j].0 != name@,
            decreases self.entries.len() - i + (if found is None { 1nat } else { 0nat }),
        {
            if same_text(self.entries[i].0.as_str(), name.as_str()) {
                found = Some(i);
            } else {
                i += 1;
            }
        }
        let mut entries: Vec<(String, String)> = Vec::new();
        std::mem::swap(&mut entries, &mut self.entries);
        assert(self@ =~= Seq::<(Seq<char>, Seq<char>)>::empty());
        assert(pairs_view(entries@) == before);
        match found {
            Some(at) => {
                let ghost target = before.update(at as int, (name@, version@));
                let earlier = entries.remove(at);
                entries.insert(at, (name, version));
                assert(pairs_view(entries@) =~= target);
                self.entries = entries;
                Some(earlier.1)
            },
            None => {
                let ghost target = before.push((name@, version@));
                entries.push((name, version));
                assert(pairs_view(entries@) =~= target);
                self.entries = entries;
                None
            },
        }
    }

    /// How many dependencies there are.
    pub fn len(&self) -> (count: usize)
        ensures
            count == self@.len(),
    {
        self.entries.len()
    }

    /// Whether there is no dependency.
    pub fn is_empty(&self) -> (empty: bool)
        ensures
            empty == (self@.len() == 0),
    {
        self.entries.len() == 0
    }

    /// The entries in order, each a name with its version.
    pub fn entries(&self) -> (list: &Vec<(String, String)>)
        ensures
            list@.len() == self@.len(),
            forall|i: int| 0 <= i < list@.len() ==> (#[trigger] list@[i]).0@ == self@[i].0,
            forall|i: int| 0 <= i < list@.len() ==> (#[trigger] list@[i]).1@ == self@[i].1,
            names_differ(self@),
    {
        proof {
            use_type_invariant(self);
        }
        &self.entries
    }

    /// The version recorded for a name, if the name is there.
    pub fn get(&self, name: &str) -> (version: Option<&String>)
        ensures
            match position_of(self@, name@) {
                Some(at) => version matches Some(found) && found@ == self@[at].1,
                None => version is None,
            },
    {
        let mut i: usize = 0;
        while i < self.entries.len()
            invariant
                i <= self.entries.len(),
                forall|j: int| 0 <= j < i ==> self@[j].0 != name@,
            decreases self.entries.len() - i,
        {
            if same_text(self.entries[i].0.as_str(), name) {
                proof {
                    lemma_position_of(self@, name@);
                    assert(self@[i as int].0 == name@);
                }
                return Some(&self.entries[i].1);
            }
            i += 1;
        }
        proof {
            lemma_position_of(self@, name@);
        }
        None
    }
}

impl Clone for Dependencies {
    fn clone(&self) -> (copy: Self)
        ensures
            copy@ == self@,
    {
        proof {
            use_type_invariant(self);
        }
        let mut entries: Vec<(String, String)> = Vec::new();
        let mut i: usize = 0;
        while i < self.entries.len()
            invariant
                i <= self.entries.len(),
                entries@.len() == i,
                forall|j: int|
                    0 <= j < i ==> (#[trigger] entries@[j]).0@ == self@[j].0 && entries@[j].1@
                        == self@[j].1,
            decreases self.entries.len() - i,
        {
            entries.push((self.entries[i].0.clone(), self.entries[i].1.clone()));
            i += 1;
        }
        let copy = Dependencies { entries };
        assert(copy@ =~= self@);
        copy
    }
}

/// What the type checker's configuration file is written from.
#[derive(Debug, Clone)]
pub struct TypeScriptConfig {
    pub target: String,
    pub module: String,
    pub lib: Vec<String>,
    pub strict: bool,
    pub out_dir: String,
    pub root_dir: String,
}

/// A `TypeScriptConfig` with each text as a sequence of characters.
pub struct TypeScriptConfigView {
    pub target: Seq<char>,
    pub module: Seq<char>,
    pub lib: Seq<Seq<char>>,
    pub strict: bool,
    pub out_dir: Seq<char>,
    pub root_dir: Seq<char>,
}

/// A list of texts, each as a sequence of characters.
pub open spec fn texts_view(list: Seq<String>) -> Seq<Seq<char>> {
    Seq::new(list.len(), |i: int| list[i]@)
}

impl View for TypeScriptConfig {
    type V = TypeScriptConfigView;

    open spec fn view(&self) -> TypeScriptConfigView {
        TypeScriptConfigView {
            target: self.target@,
            module: self.module@,
            lib: texts_view(self.lib@),
            strict: self.strict,
            out_dir: self.out_dir@,
            root_dir: self.root_dir@,
        }
    }
}

/// The type checker's settings of a run that was given none.
pub open spec fn default_typescript_config() -> TypeScriptConfigView {
    TypeScriptConfigView {
        target: "ES2020"@,
        module: "commonjs"@,
        lib: seq!["ES2020"@, "DOM"@],
        strict: true,
        out_dir: "./dist"@,
        root_dir: "./"@,
    }
}

impl Default for TypeScriptConfig {
    fn default() -> (made: Self)
        ensures
            made@ == default_typescript_config(),
    {
        let mut lib: Vec<String> = Vec::new();
        lib.push("ES2020".to_owned());
        lib.push("DOM".to_owned());
        assert(texts_view(lib@) =~= seq!["ES2020"@, "DOM"@]);
        TypeScriptConfig {
            target: "ES2020".to_owned(),
            module: "commonjs".to_owned(),
            lib,
            strict: true,
            out_dir: "./dist".to_owned(),
            root_dir: "./".to_owned(),
        }
    }
}

/// What the test runner's configuration file is written from.
#[derive(Debug, Clone)]
pub struct JestConfig {
    pub preset: String,
    pub test_environment: String,
    pub test_match: Vec<String>,
    pub module_file_extensions: Vec<String>,
}

/// A `JestConfig` with each text as a sequence of characters.
pub struct JestConfigView {
    pub preset: Seq<char>,
    pub test_environment: Seq<char>,
    pub test_match: Seq<Seq<char>>,
    pub module_file_extensions: Seq<Seq<char>>,
}

impl View for JestConfig {
    type V = JestConfigView;

    open spec fn view(&self) -> JestConfigView {
        JestConfigView {
            preset: self.preset@,
            test_environment: self.test_environment@,
            test_match: texts_view(self.test_match@),
            module_file_extensions: texts_view(self.module_file_extensions@),
        }
    }
}

/// The test runner's settings of a run that was given none.
pub open spec fn default_jest_config() -> JestConfigView {
    JestConfigView {
        preset: "ts-jest"@,
        test_environment: "node"@,
        test_match: seq!["**/tests/**/*.test.ts"@],
        module_file_extensions: seq!["ts"@, "js"@],
    }
}

impl Default for JestConfig {
    fn default() -> (made: Self)
        ensures
            made@ == default_jest_config(),
    {
        let mut test_match: Vec<String> = Vec::new();
        test_match.push("**/tests/**/*.test.ts".to_owned());
        let mut module_file_extensions: Vec<String> = Vec::new();
        module_file_extensions.push("ts".to_owned());
        module_file_extensions.push("js".to_owned());
        assert(texts_view(test_match@) =~= seq!["**/tests/**/*.test.ts"@]);
        assert(texts_view(module_file_extensions@) =~= seq!["ts"@, "js"@]);
        JestConfig {
            preset: "ts-jest".to_owned(),
            test_environment: "node".to_owned(),
            test_match,
            module_file_extensions,
        }
    }
}

/// Everything a run is generated from. It is built once and only read after.
#[derive(Debug, Clone)]
pub struct ProjectConfig {
    pub solana_version: String,
    pub cargo_dependencies: Dependencies,
    pub npm_dev_dependencies: Dependencies,
    pub npm_dependencies: Dependencies,
    pub typescript_config: TypeScriptConfig,
    pub jest_config: JestConfig,
    pub program_template: String,
}

/// A `ProjectConfig` with each text as a sequence of characters.
pub struct ProjectConfigView {
    pub solana_version: Seq<char>,
    pub cargo_dependencies: Seq<(Seq<char>, Seq<char>)>,
    pub npm_dev_dependencies: Seq<(Seq<char>, Seq<char>)>,
    pub npm_dependencies: Seq<(Seq<char>, Seq<char>)>,
    pub typescript_config: TypeScriptConfigView,
    pub jest_config: JestConfigView,
    pub program_template: Seq<char>,
}

impl ProjectConfigView {
    /// Every dependency has a name.
    pub open spec fn well_formed(self) -> bool {
        &&& names_are_given(self.cargo_dependencies)
        &&& names_are_given(self.npm_dev_dependencies)
        &&& names_are_given(self.npm_dependencies)
    }
}

impl View for ProjectConfig {
    type V = ProjectConfigView;

    open spec fn view(&self) -> ProjectConfigView {
        ProjectConfigView {
            solana_version: self.solana_version@,
            cargo_dependencies: self.cargo_dependencies@,
            npm_dev_dependencies: self.npm_dev_dependencies@,
            npm_dependencies: self.npm_dependencies@,
            typescript_config: self.typescript_config@,
            jest_config: self.jest_config@,
            program_template: self.program_template@,
        }
    }
}

/// The configuration of a run that was given none.
pub open spec fn default_project_config() -> ProjectConfigView {
    ProjectConfigView {
        solana_version: "2.3.0"@,
        cargo_dependencies: seq![("solana-program"@, "2.3.0"@)],
        npm_dev_dependencies: seq![
            ("jest"@, "^30.0.5"@),
            ("typescript"@, "^5.8.3"@),
            ("@types/jest"@, "^30.0.0"@),
            ("ts-jest"@, "^29.4.0"@),
        ],
        npm_dependencies: seq![("@solana/web3.js"@, "^1.98.2"@), ("borsh"@, "^2.0.0"@)],
        typescript_config: default_typescript_config(),
        jest_config: default_jest_config(),
        program_template: "hello_world"@,
    }
}

impl Default for ProjectConfig {
    fn default() -> (made: Self)
        ensures
            made@ == default_project_config(),
            made@.well_formed(),
    {
        proof {
            reveal_strlit("solana-program");
            reveal_strlit("jest");
            reveal_strlit("typescript");
            reveal_strlit("@types/jest");
            reveal_strlit("ts-jest");
            reveal_strlit("@solana/web3.js");
            reveal_strlit("borsh");
        }
        let mut cargo_deps = Dependencies::new();
        cargo_deps.insert("solana-program".to_owned(), "2.3.0".to_owned());
        assert(cargo_deps@ =~= seq![("solana-program"@, "2.3.0"@)]);

        let mut npm_dev_deps = Dependencies::new();
        npm_dev_deps.insert("jest".to_owned(), "^30.0.5".to_owned());
        assert(npm_dev_deps@ =~= seq![("jest"@, "^30.0.5"@)]);
        proof {
            assert(npm_dev_deps@[0].0.len() == 4 && "typescript"@.len() == 10);
            lemma_position_of(npm_dev_deps@, "typescript"@);
        }
        npm_dev_deps.insert("typescript".to_owned(), "^5.8.3".to_owned());
        assert(npm_dev_deps@ =~= seq![("jest"@, "^30.0.5"@), ("typescript"@, "^5.8.3"@)]);
        proof {
            assert(npm_dev_deps@[0].0.len() == 4 && npm_dev_deps@[1].0.len() == 10);
            assert("@types/jest"@.len() == 11);
            lemma_position_of(npm_dev_deps@, "@types/jest"@);
        }
        npm_dev_deps.insert("@types/jest".to_owned(), "^30.0.0".to_owned());
        assert(npm_dev_deps@ =~= seq![
            ("jest"@, "^30.0.5"@),
            ("typescript"@, "^5.8.3"@),
            ("@types/jest"@, "^30.0.0"@),
        ]);
        proof {
            assert(npm_dev_deps@[0].0.len() == 4 && npm_dev_deps@[1].0.len() == 10);
            assert(npm_dev_deps@[2].0.len() == 11 && "ts-jest"@.len() == 7);
            lemma_position_of(npm_dev_deps@, "ts-jest"@);
        }
        npm_dev_deps.insert("ts-jest".to_owned(), "^29.4.0".to_owned());
        assert(npm_dev_deps@ =~= default_project_config().npm_dev_dependencies);

        let mut npm_deps = Dependencies::new();
        npm_deps.insert("@solana/web3.js".to_owned(), "^1.98.2".to_owned());
        assert(npm_deps@ =~= seq![("@solana/web3.js"@, "^1.98.2"@)]);
        proof {
            assert(npm_deps@[0].0.len() == 15 && "borsh"@.len() == 5);
            lemma_position_of(npm_deps@, "borsh"@);
        }
        npm_deps.insert("borsh".to_owned(), "^2.0.0".to_owned());
        assert(npm_deps@ =~= default_project_config().npm_dependencies);

        ProjectConfig {
            solana_version: "2.3.0".to_owned(),
            cargo_dependencies: cargo_deps,
            npm_dev_dependencies: npm_dev_deps,
            npm_dependencies: npm_deps,
            typescript_config: TypeScriptConfig::default(),
            jest_config: JestConfig::default(),
            program_template: "hello_world".to_owned(),
        }
    }
}

} // verus!
