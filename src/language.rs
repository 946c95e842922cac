use vstd::prelude::*;
use crate::text::str_eq;

verus! {

/// How to build and run programs written in one language.
///
/// `compile` holds shell commands run in order inside the workspace before
/// `run`, which is run inside the sandbox.
pub struct Language {
    pub code: &'static str,
    pub ext: &'static str,
    pub compile: Vec<&'static str>,
    pub run: &'static str,
}

/// The language codes of the standard table, in listing order.
pub open spec fn standard_codes() -> Seq<Seq<char>> {
    seq!["rs"@, "cpp"@, "hs"@, "c"@, "py"@, "js"@, "sh"@, "go"@, "java"@]
}

/// The words of `s` joined by ", ".
pub open spec fn join_comma(s: Seq<Seq<char>>) -> Seq<char>
    decreases s.len(),
{
    if s.len() == 0 {
        Seq::empty()
    } else if s.len() == 1 {
        s[0]
    } else {
        join_comma(s.drop_last()) + ", "@ + s.last()
    }
}

/// The header of the language listing.
pub open spec fn listing_header() -> Seq<char> {
    "사용 가능한 언어:\n"@
}

impl Language {
    /// The name of the source file in the workspace: `main.<ext>`.
    pub fn source_file_name(&self) -> (r: String)
        ensures
            r@ == "main."@ + self.ext@,
    {
        let mut r = String::from_str("main.");
        r.append(self.ext);
        r
    }
}

/// The source file extensions of the standard table, in listing order.
pub open spec fn standard_exts() -> Seq<Seq<char>> {
    seq!["rs"@, "cc"@, "hs"@, "c"@, "py"@, "js"@, "sh"@, "go"@, "java"@]
}

/// The build commands of each language of the standard table.
pub open spec fn standard_builds() -> Seq<Seq<Seq<char>>> {
    seq![
        seq!["rustc --edition=2018 -O -o main main.rs"@],
        seq!["g++ -std=c++2a -o main -O3 main.cc"@],
        seq!["ghc -fllvm -dynamic -o main main.hs"@],
        seq!["gcc -std=c17 -o main -O3 main.c"@],
        seq!["python3 -c 'import py_compile; py_compile.compile(\"main.py\")'"@],
        seq![],
        seq!["chmod +x main.sh"@],
        seq!["go build main.go"@],
        seq!["mv main.java Main.java"@, "javac Main.java"@],
    ]
}

/// The run command of each language of the standard table.
pub open spec fn standard_runs() -> Seq<Seq<char>> {
    seq![
        "./main"@,
        "./main"@,
        "./main"@,
        "./main"@,
        "python3 main.py"@,
        "node --max-old-space-size=2000 main.js"@,
        "bash main.sh"@,
        "./main"@,
        "java -XX:MaxHeapSize=512m -XX:InitialHeapSize=512m -XX:CompressedClassSpaceSize=64m -XX:MaxMetaspaceSize=128m Main"@,
    ]
}

/// The build commands of `l`.
pub open spec fn builds_of(l: Language) -> Seq<Seq<char>> {
    l.compile@.map_values(|c: &str| c@)
}

/// The immutable table of supported languages.
pub struct LanguageRegistry {
    languages: Vec<Language>,
}

impl View for LanguageRegistry {
    type V = Seq<Language>;

    closed spec fn view(&self) -> Seq<Language> {
        self.languages@
    }
}

/// The codes of `langs`, in order.
pub open spec fn codes_of(langs: Seq<Language>) -> Seq<Seq<char>> {
    langs.map_values(|l: Language| l.code@)
}

/// No two languages share a code.
pub open spec fn codes_unique(langs: Seq<Language>) -> bool {
    forall|i: int, j: int|
        0 <= i < langs.len() && 0 <= j < langs.len() && i != j ==> langs[i].code@ != langs[j].code@
}

impl LanguageRegistry {
    pub open spec fn wf(&self) -> bool {
        codes_unique(self@) && self@.len() > 0
    }

    /// The standard table: rs, cpp, hs, c, py, js, sh, go, java.
    pub fn standard() -> (r: LanguageRegistry)
        ensures
            r.wf(),
            codes_of(r@) == standard_codes(),
            r@.len() == 9,
            forall|i: int| 0 <= i < 9 ==> (#[trigger] r@[i]).ext@ == standard_exts()[i],
            forall|i: int| 0 <= i < 9 ==> builds_of(#[trigger] r@[i]) == standard_builds()[i],
            forall|i: int| 0 <= i < 9 ==> (#[trigger] r@[i]).run@ == standard_runs()[i],
    {
        let mut languages: Vec<Language> = Vec::new();
        languages.push(Language {
            code: "rs",
            ext: "rs",
            compile: vec!["rustc --edition=2018 -O -o main main.rs"],
            run: "./main",
        });
        languages.push(Language {
            code: "cpp",
            ext: "cc",
            compile: vec!["g++ -std=c++2a -o main -O3 main.cc"],
            run: "./main",
        });
        languages.push(Language {
            code: "hs",
            ext: "hs",
            compile: vec!["ghc -fllvm -dynamic -o main main.hs"],
            run: "./main",
        });
        languages.push(Language {
            code: "c",
            ext: "c",
            compile: vec!["gcc -std=c17 -o main -O3 main.c"],
            run: "./main",
        });
        languages.push(Language {
            code: "py",
            ext: "py",
            compile: vec!["python3 -c 'import py_compile; py_compile.compile(\"main.py\")'"],
            run: "python3 main.py",
        });
        languages.push(Language {
            code: "js",
            ext: "js",
            compile: Vec::new(),
            run: "node --max-old-space-size=2000 main.js",
        });
        languages.push(Language {
            code: "sh",
            ext: "sh",
            compile: vec!["chmod +x main.sh"],
            run: "bash main.sh",
        });
        languages.push(Language {
            code: "go",
            ext: "go",
            compile: vec!["go build main.go"],
            run: "./main",
        });
        languages.push(Language {
            code: "java",
            ext: "java",
            compile: vec!["mv main.java Main.java", "javac Main.java"],
            run: "java -XX:MaxHeapSize=512m -XX:InitialHeapSize=512m -XX:CompressedClassSpaceSize=64m -XX:MaxMetaspaceSize=128m Main",
        });
        let r = LanguageRegistry { languages };
        proof {
            reveal_strlit("rs");
            reveal_strlit("cpp");
            reveal_strlit("hs");
            reveal_strlit("c");
            reveal_strlit("py");
            reveal_strlit("js");
            reveal_strlit("sh");
            reveal_strlit("go");
            reveal_strlit("java");
            assert(codes_of(r@) =~= standard_codes());
            assert forall|i: int| 0 <= i < 9 implies builds_of(#[trigger] r@[i]) == standard_builds()[i] by {
                assert(builds_of(r@[i]) =~= standard_builds()[i]);
            }
            let c = standard_codes();
            assert(forall|i: int| 0 <= i < 9 ==> #[trigger] c[i].len() > 0);
            assert forall|i: int, j: int| 0 <= i < 9 && 0 <= j < 9 && i != j implies c[i]
                != c[j] by {
                assert(c[i].len() != c[j].len() || c[i][0] != c[j][0]);
            }
            assert forall|i: int, j: int| 0 <= i < r@.len() && 0 <= j < r@.len() && i != j implies r@[i].code@
                != r@[j].code@ by {
                assert(codes_of(r@)[i] == r@[i].code@);
                assert(codes_of(r@)[j] == r@[j].code@);
            }
        }
        r
    }

    /// The language whose code is exactly `code`.
    pub fn find(&self, code: &str) -> (r: Option<&Language>)
        ensures
            match r {
                Some(l) => exists|i: int| 0 <= i < self@.len() && self@[i] == *l && l.code@ == code@,
                None => forall|i: int| 0 <= i < self@.len() ==> self@[i].code@ != code@,
            },
    {
        let n = self.languages.len();
        let mut i: usize = 0;
        while i < n
            invariant
                i <= n,
                n == self@.len(),
                forall|k: int| 0 <= k < i ==> self@[k].code@ != code@,
            decreases n - i,
        {
            if str_eq(self.languages[i].code, code) {
                return Some(&self.languages[i]);
            }
            i = i + 1;
        }
        None
    }

    /// The codes of all languages, in table order.
    pub fn list_codes(&self) -> (r: Vec<&'static str>)
        ensures
            r@.map_values(|c: &str| c@) == codes_of(self@),
    {
        let n = self.languages.len();
        let mut r: Vec<&'static str> = Vec::new();
        let mut i: usize = 0;
        while i < n
            invariant
                i <= n,
                n == self@.len(),
                r@.len() == i,
                forall|k: int| 0 <= k < i ==> #[trigger] r@[k]@ == self@[k].code@,
            decreases n - i,
        {
            r.push(self.languages[i].code);
            i = i + 1;
        }
        assert(r@.map_values(|c: &str| c@) =~= codes_of(self@));
        r
    }

    /// The listing shown next to a usage error: a header line, then the
    /// codes joined by ", ".
    pub fn available_languages(&self) -> (r: String)
        ensures
            r@ == listing_header() + join_comma(codes_of(self@)),
    {
        let n = self.languages.len();
        let mut r = String::from_str("사용 가능한 언어:\n");
        let ghost codes = codes_of(self@);
        let mut i: usize = 0;
        while i < n
            invariant
                i <= n,
                n == self@.len(),
                codes == codes_of(self@),
                r@ == listing_header() + join_comma(codes.subrange(0, i as int)),
            decreases n - i,
        {
            if i > 0 {
                r.append(", ");
            }
            r.append(self.languages[i].code);
            proof {
                let next = codes.subrange(0, i + 1);
                assert(next.drop_last() =~= codes.subrange(0, i as int));
                assert(next.last() == self@[i as int].code@);
                if i == 0 {
                    assert(join_comma(codes.subrange(0, 0)) =~= Seq::<char>::empty());
                }
            }
            i = i + 1;
            assert(r@ =~= listing_header() + join_comma(codes.subrange(0, i as int)));
        }
        assert(codes.subrange(0, n as int) =~= codes);
        r
    }
}

} // verus!
