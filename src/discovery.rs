//! The tests that a source file declares, and what a discovery pass found.

use vstd::prelude::*;
use vstd::string::*;
use crate::text::{has_prefix, has_suffix, starts_with, ends_with};

verus! {

/// A discovered test: a top-level function, or a method of a test class.
#[derive(Debug, Clone)]
pub enum Test {
    /// A test which is a function
    Function { file: String, function: String },
    /// A test which is a method on a class
    Method { file: String, class: String, method: String },
}

/// The mathematical value of a [`Test`].
pub ghost enum TestView {
    Function { file: Seq<char>, function: Seq<char> },
    Method { file: Seq<char>, class: Seq<char>, method: Seq<char> },
}

impl View for Test {
    type V = TestView;

    open spec fn view(&self) -> TestView {
        match self {
            Test::Function { file, function } => TestView::Function { file: file@, function: function@ },
            Test::Method { file, class, method } => TestView::Method {
                file: file@,
                class: class@,
                method: method@,
            },
        }
    }
}

impl TestView {
    pub open spec fn file(self) -> Seq<char> {
        match self {
            TestView::Function { file, .. } => file,
            TestView::Method { file, .. } => file,
        }
    }

    pub open spec fn suite(self) -> Option<Seq<char>> {
        match self {
            TestView::Function { .. } => None,
            TestView::Method { class, .. } => Some(class),
        }
    }

    pub open spec fn name(self) -> Seq<char> {
        match self {
            TestView::Function { function, .. } => function,
            TestView::Method { method, .. } => method,
        }
    }

    /// `"{class}.{method}"` for a method, the bare name for a function.
    pub open spec fn identifier(self) -> Seq<char> {
        match self.suite() {
            Some(suite) => suite + "."@ + self.name(),
            None => self.name(),
        }
    }
}

/// The views of a sequence of tests.
pub open spec fn test_views(s: Seq<Test>) -> Seq<TestView> {
    s.map_values(|t: Test| t@)
}

impl Test {
    /// Get the file of the test
    pub fn file(&self) -> (r: &str)
        ensures
            r@ == self@.file(),
    {
        match self {
            Test::Function { file, .. } => file.as_str(),
            Test::Method { file, .. } => file.as_str(),
        }
    }

    /// Get the suite of the test
    pub fn suite(&self) -> (r: Option<&str>)
        ensures
            r.is_some() == self@.suite().is_some(),
            r.is_some() ==> r.unwrap()@ == self@.suite().unwrap(),
    {
        match self {
            Test::Function { .. } => None,
            Test::Method { class, .. } => Some(class.as_str()),
        }
    }

    /// Get the name of the test function/ method
    pub fn name(&self) -> (r: &str)
        ensures
            r@ == self@.name(),
    {
        match self {
            Test::Function { function, .. } => function.as_str(),
            Test::Method { method, .. } => method.as_str(),
        }
    }

    /// Get the name and suite of the test combined into a single identifier
    pub fn identifier(&self) -> (r: String)
        ensures
            r@ == self@.identifier(),
    {
        let mut identifier = String::new();
        if let Some(suite) = self.suite() {
            identifier.append(suite);
            identifier.append(".");
        }
        identifier.append(self.name());
        identifier
    }
}

/// A top-level statement of a source file, as far as discovery looks at it.
#[derive(Debug, Clone)]
pub enum Definition {
    /// A function definition
    Function { name: String },
    /// A class definition; for each statement of its body, in order, the name of the
    /// function it defines, or `None` for a statement that defines no function
    Class { name: String, body: Vec<Option<String>> },
    /// Any other statement
    Other,
}

/// The mathematical value of a [`Definition`].
pub ghost enum DefinitionView {
    Function { name: Seq<char> },
    Class { name: Seq<char>, body: Seq<Option<Seq<char>>> },
    Other,
}

pub open spec fn opt_text_view(m: Option<String>) -> Option<Seq<char>> {
    match m {
        Some(s) => Some(s@),
        None => None,
    }
}

impl View for Definition {
    type V = DefinitionView;

    open spec fn view(&self) -> DefinitionView {
        match self {
            Definition::Function { name } => DefinitionView::Function { name: name@ },
            Definition::Class { name, body } => DefinitionView::Class {
                name: name@,
                body: body@.map_values(|m: Option<String>| opt_text_view(m)),
            },
            Definition::Other => DefinitionView::Other,
        }
    }
}

/// The views of a sequence of statements.
pub open spec fn definition_views(s: Seq<Definition>) -> Seq<DefinitionView> {
    s.map_values(|d: Definition| d@)
}

/// The top-level statements of a module's source text, or `None` when it does not parse.
pub uninterp spec fn module_statements(source: Seq<char>) -> Option<Seq<DefinitionView>>;

/// Relies on `ruff_python_parser::parse_module`: it parses the source text as a module,
/// and fails on a syntax error. Each top-level statement is handed over as a function
/// definition (its name), a class definition (its name, and for each statement of its
/// body the name of the function it defines, if it defines one), or another statement.
/// The lexer asserts that the source's length in bytes fits in a `u32`.
#[verifier::external_body]
fn parse_statements(source: &str) -> (r: Option<Vec<Definition>>)
    requires
        source.spec_bytes().len() <= u32::MAX,
    ensures
        r.is_some() == module_statements(source@).is_some(),
        r.is_some() ==> definition_views(r.unwrap()@) == module_statements(source@).unwrap(),
{
    let parsed = ruff_python_parser::parse_module(source).ok()?;
    Some(parsed.syntax().body.iter().map(|s| {
        if let Some(f) = s.as_function_def_stmt() {
            Definition::Function { name: f.name.to_string() }
        } else if let Some(c) = s.as_class_def_stmt() {
            let body = c.body.iter().map(|m| m.as_function_def_stmt().map(|f| f.name.to_string()));
            Definition::Class { name: c.name.to_string(), body: body.collect() }
        } else {
            Definition::Other
        }
    }).collect())
}

/// A function or method whose name marks it as a test.
pub open spec fn is_test_name(name: Seq<char>) -> bool {
    has_prefix(name, "test"@)
}

/// A class whose name marks it as holding test methods.
pub open spec fn is_test_class_name(name: Seq<char>) -> bool {
    has_prefix(name, "Test"@) || has_suffix(name, "Test"@) || has_suffix(name, "Tests"@)
}

/// The tests among the statements `body` of the test class `class`.
pub open spec fn method_tests(file: Seq<char>, class: Seq<char>, body: Seq<Option<Seq<char>>>) -> Seq<TestView>
    decreases body.len(),
{
    if body.len() == 0 {
        Seq::empty()
    } else {
        let rest = method_tests(file, class, body.drop_last());
        match body.last() {
            Some(m) => if is_test_name(m) {
                rest.push(TestView::Method { file, class, method: m })
            } else {
                rest
            },
            None => rest,
        }
    }
}

/// The tests that one top-level statement declares.
pub open spec fn definition_tests(file: Seq<char>, d: DefinitionView) -> Seq<TestView> {
    match d {
        DefinitionView::Function { name } => if is_test_name(name) {
            seq![TestView::Function { file, function: name }]
        } else {
            Seq::empty()
        },
        DefinitionView::Class { name, body } => if is_test_class_name(name) {
            method_tests(file, name, body)
        } else {
            Seq::empty()
        },
        DefinitionView::Other => Seq::empty(),
    }
}

/// The tests that a module body declares, in source order.
pub open spec fn module_tests(file: Seq<char>, body: Seq<DefinitionView>) -> Seq<TestView>
    decreases body.len(),
{
    if body.len() == 0 {
        Seq::empty()
    } else {
        module_tests(file, body.drop_last()) + definition_tests(file, body.last())
    }
}

/// Whether a function or method name marks a test.
pub fn is_test_function_name(name: &str) -> (r: bool)
    ensures
        r == is_test_name(name@),
{
    starts_with(name, "test")
}

/// Whether a class name marks a class of test methods.
pub fn is_test_class(name: &str) -> (r: bool)
    ensures
        r == is_test_class_name(name@),
{
    starts_with(name, "Test") || ends_with(name, "Test") || ends_with(name, "Tests")
}

/// Push onto `tests` the test methods of the class `class`.
fn push_method_tests(file: &String, class: &String, body: &Vec<Option<String>>, tests: &mut Vec<Test>)
    ensures
        test_views(final(tests)@) == test_views(old(tests)@) + method_tests(
            file@,
            class@,
            body@.map_values(|m: Option<String>| opt_text_view(m)),
        ),
{
    let ghost start = test_views(tests@);
    let ghost names = body@.map_values(|m: Option<String>| opt_text_view(m));
    let mut i: usize = 0;
    while i < body.len()
        invariant
            i <= body.len(),
            names == body@.map_values(|m: Option<String>| opt_text_view(m)),
            test_views(tests@) == start + method_tests(file@, class@, names.subrange(0, i as int)),
        decreases body.len() - i,
    {
        proof {
            assert(names.subrange(0, i + 1).drop_last() =~= names.subrange(0, i as int));
            assert(names.subrange(0, i + 1).last() == opt_text_view(body@[i as int]));
        }
        if let Some(m) = &body[i] {
            if is_test_function_name(m.as_str()) {
                let t = Test::Method { file: file.clone(), class: class.clone(), method: m.clone() };
                let ghost prev = tests@;
                tests.push(t);
                proof {
                    assert(test_views(tests@) =~= test_views(prev).push(t@));
                }
            }
        }
        proof {
            assert(test_views(tests@) =~= start + method_tests(file@, class@, names.subrange(0, i + 1)));
        }
        i = i + 1;
    }
    proof {
        assert(names.subrange(0, body.len() as int) =~= names);
    }
}

/// Find the tests in one module body: functions whose name starts with `test`, and the
/// `test` methods of classes whose name starts with `Test` or ends with `Test` or `Tests`.
pub fn tests_in_module(file: &String, body: &Vec<Definition>) -> (r: Vec<Test>)
    ensures
        test_views(r@) == module_tests(file@, definition_views(body@)),
{
    let ghost views = definition_views(body@);
    let mut tests: Vec<Test> = Vec::new();
    let mut i: usize = 0;
    while i < body.len()
        invariant
            i <= body.len(),
            views == definition_views(body@),
            test_views(tests@) == module_tests(file@, views.subrange(0, i as int)),
        decreases body.len() - i,
    {
        proof {
            assert(views.subrange(0, i + 1).drop_last() =~= views.subrange(0, i as int));
            assert(views.subrange(0, i + 1).last() == body@[i as int]@);
        }
        let ghost before = test_views(tests@);
        match &body[i] {
            Definition::Function { name } => {
                if is_test_function_name(name.as_str()) {
                    tests.push(Test::Function { file: file.clone(), function: name.clone() });
                }
            },
            Definition::Class { name, body: class_body } => {
                if is_test_class(name.as_str()) {
                    push_method_tests(file, name, class_body, &mut tests);
                }
            },
            Definition::Other => {},
        }
        proof {
            assert(test_views(tests@) =~= before + definition_tests(file@, body@[i as int]@));
        }
        i = i + 1;
    }
    proof {
        assert(views.subrange(0, body.len() as int) =~= views);
    }
    tests
}

/// The tests that a module's source text declares, in source order; none when the text
/// does not parse.
pub open spec fn source_tests(file: Seq<char>, source: Seq<char>) -> Seq<TestView> {
    match module_statements(source) {
        Some(body) => module_tests(file, body),
        None => Seq::empty(),
    }
}

/// Find any tests in a file's source text: parse it as a module, and take the functions
/// and methods whose names mark them as tests. The parser takes sources of less than
/// 4 GiB.
pub fn get_test_methods(file: &String, source: &str) -> (r: Vec<Test>)
    requires
        source.spec_bytes().len() <= u32::MAX,
    ensures
        test_views(r@) == source_tests(file@, source@),
{
    match parse_statements(source) {
        Some(body) => tests_in_module(file, &body),
        None => Vec::new(),
    }
}

/// Holds the tests discovered, and metadata about the discovery
pub struct DiscoveredTests {
    /// How long it took to find the tests, in nanoseconds
    pub duration: u64,
    /// The tests that were found
    pub tests: Vec<Test>,
    /// How many tests were found
    pub test_count: usize,
    /// How many files were the tests found in
    pub file_count: usize,
}

impl DiscoveredTests {
    /// The counters agree with what was found.
    pub open spec fn wf(&self) -> bool {
        self.test_count == self.tests.len()
    }

    /// An empty result: no tests, no files, no time taken.
    pub fn new() -> (r: Self)
        ensures
            r.wf(),
            r.duration == 0,
            r.tests@.len() == 0,
            r.test_count == 0,
            r.file_count == 0,
    {
        DiscoveredTests { duration: 0, tests: Vec::new(), test_count: 0, file_count: 0 }
    }

    /// Add what one discovery worker found: `files` more files searched, and their tests.
    pub fn absorb(&mut self, files: usize, tests: &mut Vec<Test>)
        requires
            old(self).wf(),
            old(self).file_count + files <= usize::MAX,
            old(self).tests.len() + old(tests).len() <= usize::MAX,
        ensures
            final(self).wf(),
            final(self).tests@ == old(self).tests@ + old(tests)@,
            final(self).file_count == old(self).file_count + files,
            final(self).duration == old(self).duration,
            final(tests)@.len() == 0,
    {
        self.file_count = self.file_count + files;
        self.test_count = self.test_count + tests.len();
        self.tests.append(tests);
    }
}

} // verus!
