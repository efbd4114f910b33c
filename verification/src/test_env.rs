//! Test environments: sets of modules, each with its source text, for checking code that
//! uses the Polars and pandas libraries (with minimal stubs under their real qualified names).

use vstd::prelude::*;

verus! {

/// A module of a test environment: its name, the path of its file when it is not the
/// default one for the name, and its source text.
#[derive(Debug, PartialEq)]
pub struct TestModule {
    pub name: String,
    pub path: Option<String>,
    pub contents: String,
}

/// The mathematical value of a [`TestModule`].
pub struct ModuleSource {
    pub name: Seq<char>,
    pub path: Option<Seq<char>>,
    pub contents: Seq<char>,
}

/// A test environment: its modules, in the order they were added.
#[derive(Debug, PartialEq)]
pub struct TestEnv {
    pub modules: Vec<TestModule>,
}

impl View for TestEnv {
    type V = Seq<ModuleSource>;

    open spec fn view(&self) -> Seq<ModuleSource> {
        self.modules@.map_values(|m: TestModule| ModuleSource {
            name: m.name@,
            path: match m.path {
                Some(p) => Some(p@),
                None => None,
            },
            contents: m.contents@,
        })
    }
}

/// A module at the default path for its name.
pub open spec fn module_source(name: &str, contents: &str) -> ModuleSource {
    ModuleSource { name: name@, path: None, contents: contents@ }
}

/// A module at the given path.
pub open spec fn module_source_at(name: &str, path: &str, contents: &str) -> ModuleSource {
    ModuleSource { name: name@, path: Some(path@), contents: contents@ }
}

impl TestEnv {
    /// An environment with no module.
    pub fn new() -> (r: TestEnv)
        ensures
            r@ == Seq::<ModuleSource>::empty(),
    {
        TestEnv { modules: Vec::new() }
    }

    /// Adds the module `name` with source `contents`, at the default path for its name.
    pub fn add(&mut self, name: &str, contents: &str)
        ensures
            final(self)@ == old(self)@.push(module_source(name, contents)),
    {
        self.modules.push(TestModule { name: name.to_owned(), path: None, contents: contents.to_owned() });
        assert(self@ =~= old(self)@.push(module_source(name, contents)));
    }

    /// Adds the module `name` with source `contents`, at `path`.
    pub fn add_with_path(&mut self, name: &str, path: &str, contents: &str)
        ensures
            final(self)@ == old(self)@.push(module_source_at(name, path, contents)),
    {
        self.modules.push(
            TestModule { name: name.to_owned(), path: Some(path.to_owned()), contents: contents.to_owned() },
        );
        assert(self@ =~= old(self)@.push(module_source_at(name, path, contents)));
    }
}

/// The source of `polars.series.series` in its environment.
pub const POLARS_SERIES_SERIES_SOURCE: &'static str = r#"
from typing import Any, overload
class Series:
    def __init__(self, name: object = None, values: object = None, dtype: object = None, *, strict: bool = True, nan_to_null: bool = False) -> None: ...
    @overload
    def __getitem__(self, key: int) -> Any: ...
    @overload
    def __getitem__(self, key: slice) -> "Series": ...
    def __or__(self, other: "Series") -> "Series": ...
"#;

/// The source of `polars.dataframe.frame` in its environment.
pub const POLARS_DATAFRAME_FRAME_SOURCE: &'static str = r#"
from typing import Iterator, overload
from polars.series.series import Series
from polars.lazyframe.frame import LazyFrame
class DataFrame:
    columns: list[str]
    def __init__(self, data: object = None, schema: object = None, schema_overrides: object = None, strict: bool = True) -> None: ...
    @overload
    def __getitem__(self, key: str) -> Series: ...
    @overload
    def __getitem__(self, key: list[str] | list[int]) -> "DataFrame": ...
    def __iter__(self) -> Iterator[Series]: ...
    def __contains__(self, key: str) -> bool: ...
    def get_column(self, name: str, *, default: object = None) -> Series: ...
    def to_series(self, index: int = 0) -> Series: ...
    def head(self, n: int = 5) -> "DataFrame": ...
    def select(self, *exprs: object, **named_exprs: object) -> "DataFrame": ...
    def drop(self, *columns: object, strict: bool = True) -> "DataFrame": ...
    def rename(self, mapping: object, *, strict: bool = True) -> "DataFrame": ...
    def with_columns(self, *exprs: object, **named_exprs: object) -> "DataFrame": ...
    def filter(self, *predicates: object, **constraints: object) -> "DataFrame": ...
    def sort(self, by: object, *more: object, descending: bool = False) -> "DataFrame": ...
    def fill_null(self, value: object = None, strategy: str | None = None, limit: int | None = None, *, matches_supertype: bool = True) -> "DataFrame": ...
    def slice(self, offset: int, length: int | None = None) -> "DataFrame": ...
    def unique(self, subset: object = None, *, keep: str = "any", maintain_order: bool = False) -> "DataFrame": ...
    def drop_nulls(self, subset: object = None) -> "DataFrame": ...
    def cast(self, dtypes: object, *, strict: bool = True) -> "DataFrame": ...
    def join(self, other: "DataFrame", on: object = None, how: str = "inner", *, left_on: object = None, right_on: object = None, suffix: str = "_right", coalesce: object = None) -> "DataFrame": ...
    def hstack(self, columns: object, *, in_place: bool = False) -> "DataFrame": ...
    def vstack(self, other: "DataFrame", *, in_place: bool = False) -> "DataFrame": ...
    def extend(self, other: "DataFrame") -> "DataFrame": ...
    def insert_column(self, index: int, column: object) -> "DataFrame": ...
    def replace_column(self, index: int, column: object) -> "DataFrame": ...
    def group_by(self, *by: object, maintain_order: bool = False, **named_by: object) -> "GroupBy": ...
    def lazy(self) -> "LazyFrame": ...
class GroupBy:
    def agg(self, *aggs: object, **named_aggs: object) -> DataFrame: ...
"#;

/// The source of `polars.lazyframe.frame` in its environment.
pub const POLARS_LAZYFRAME_FRAME_SOURCE: &'static str = r#"
from typing import Literal
from polars.dataframe.frame import DataFrame
class LazyFrame:
    def select(self, *exprs: object, **named_exprs: object) -> "LazyFrame": ...
    def drop(self, *columns: object, strict: bool = True) -> "LazyFrame": ...
    def rename(self, mapping: object, *, strict: bool = True) -> "LazyFrame": ...
    def with_columns(self, *exprs: object, **named_exprs: object) -> "LazyFrame": ...
    def filter(self, *predicates: object, **constraints: object) -> "LazyFrame": ...
    def sort(self, by: object, *more: object, descending: bool = False) -> "LazyFrame": ...
    def collect(self, *, engine: Literal["auto", "in-memory", "streaming", "gpu"] = "auto") -> DataFrame: ...
"#;

/// The source of `polars.functions.eager` in its environment.
pub const POLARS_FUNCTIONS_EAGER_SOURCE: &'static str = r#"
from typing import Iterable
from polars.dataframe.frame import DataFrame
def concat(items: Iterable[DataFrame], *, how: str = "vertical", rechunk: bool = False, parallel: bool = True) -> DataFrame: ...
"#;

/// The source of `polars.io.csv.functions` in its environment.
pub const POLARS_IO_CSV_FUNCTIONS_SOURCE: &'static str = r#"
from polars.dataframe.frame import DataFrame
from polars.lazyframe.frame import LazyFrame
def read_csv(source: object, *, schema: object = None, schema_overrides: object = None, columns: object = None, new_columns: object = None, row_index_name: str | None = None, **kwargs: object) -> DataFrame: ...
def scan_csv(source: object, *, schema: object = None, schema_overrides: object = None, new_columns: object = None, row_index_name: str | None = None, with_column_names: object = None, include_file_paths: str | None = None, **kwargs: object) -> LazyFrame: ...
"#;

/// The source of `polars.expr.expr` in its environment.
pub const POLARS_EXPR_EXPR_SOURCE: &'static str = r#"
from typing import Any
class Expr:
    def __add__(self, other: Any) -> "Expr": ...
    def __radd__(self, other: Any) -> "Expr": ...
    def __sub__(self, other: Any) -> "Expr": ...
    def __mul__(self, other: Any) -> "Expr": ...
    def __truediv__(self, other: Any) -> "Expr": ...
    def __floordiv__(self, other: Any) -> "Expr": ...
    def __mod__(self, other: Any) -> "Expr": ...
    def __pow__(self, other: Any) -> "Expr": ...
    def __rpow__(self, other: Any) -> "Expr": ...
    def __and__(self, other: Any) -> "Expr": ...
    def __or__(self, other: Any) -> "Expr": ...
    def __xor__(self, other: Any) -> "Expr": ...
    def __neg__(self) -> "Expr": ...
    def __pos__(self) -> "Expr": ...
    def __invert__(self) -> "Expr": ...
    def __gt__(self, other: Any) -> "Expr": ...
    def __ge__(self, other: Any) -> "Expr": ...
    def __lt__(self, other: Any) -> "Expr": ...
    def __le__(self, other: Any) -> "Expr": ...
    def alias(self, name: str) -> "Expr": ...
    def cast(self, dtype: Any, *, strict: bool = True) -> "Expr": ...
    def sum(self) -> "Expr": ...
    def mean(self) -> "Expr": ...
    def median(self) -> "Expr": ...
    def std(self, ddof: int = 1) -> "Expr": ...
    def var(self, ddof: int = 1) -> "Expr": ...
    def min(self) -> "Expr": ...
    def max(self) -> "Expr": ...
    def first(self) -> "Expr": ...
    def last(self) -> "Expr": ...
    def product(self) -> "Expr": ...
    def count(self) -> "Expr": ...
    @staticmethod
    def n_unique() -> "Expr": ...
"#;

/// The source of `polars.functions.col` in its environment.
pub const POLARS_FUNCTIONS_COL_SOURCE: &'static str = r#"
from polars.expr.expr import Expr
class Col:
    def __call__(self, *names: str) -> Expr: ...
col: Col
"#;

/// The source of `polars.functions.lit` in its environment.
pub const POLARS_FUNCTIONS_LIT_SOURCE: &'static str = r#"
from polars.expr.expr import Expr
def lit(value: object, dtype: object = None) -> Expr: ...
"#;

/// The source of `polars.functions.len` in its environment.
pub const POLARS_FUNCTIONS_LEN_SOURCE: &'static str = r#"
from polars.expr.expr import Expr
def len() -> Expr: ...
"#;

/// The source of `polars.schema` in its environment.
pub const POLARS_SCHEMA_SOURCE: &'static str = r#"
class Schema:
    def __init__(self, schema: object = None) -> None: ...
"#;

/// The source of `polars` in its environment.
pub const POLARS_PACKAGE_SOURCE: &'static str = r#"
from polars.dataframe.frame import DataFrame as DataFrame
from polars.lazyframe.frame import LazyFrame as LazyFrame
from polars.series.series import Series as Series
from polars.functions.eager import concat as concat
from polars.functions.col import col as col
from polars.functions.lit import lit as lit
from polars.functions.len import len as len
from polars.io.csv.functions import read_csv as read_csv, scan_csv as scan_csv
from polars.expr.expr import Expr as Expr
from polars.schema import Schema as Schema
class Int8: ...
class Int16: ...
class Int32: ...
class Int64: ...
class Int128: ...
class UInt8: ...
class UInt64: ...
class UInt128: ...
class Float32: ...
class Float64: ...
class String: ...
class Boolean: ...
"#;

/// The source of `mymod` in its environment.
pub const MYMOD_SOURCE: &'static str = r#"
class Schema:
    def __init__(self, schema: object = None) -> None: ...
"#;

/// The source of `defs` in its environment.
pub const DEFS_SOURCE: &'static str = r#"
import polars as pl
df = pl.DataFrame({"a": [1], "b": ["x"]})
df_kw = pl.DataFrame(data={"a": [1], "b": ["x"]})
df_schema = pl.DataFrame(schema={"a": pl.Int64, "b": pl.String})
df_records = pl.DataFrame([{"a": 1}, {"b": 2}])
my_schema = pl.Schema({"a": pl.Int64})
s = pl.Series("a", [1])
"#;

/// The source of `pandas.core.frame` in its environment.
pub const PANDAS_CORE_FRAME_SOURCE: &'static str = r#"
class DataFrame:
    def __init__(self, data: object = None, index: object = None, columns: object = None) -> None: ...
    def __getitem__(self, key: object) -> "DataFrame": ...
"#;

/// The source of `pandas` in its environment.
pub const PANDAS_PACKAGE_SOURCE: &'static str = r#"
from pandas.core.frame import DataFrame as DataFrame
"#;

/// The source of `pandas.core.frame` in the mixed Polars and pandas environment.
pub const MIXED_PANDAS_CORE_FRAME_SOURCE: &'static str = r#"
class Series: ...
class DataFrame:
    columns: list[str]
    def __init__(self, data: object = None, columns: object = None, dtype: object = None) -> None: ...
    def __getitem__(self, key: str) -> Series: ...
"#;

/// The source of `pandas` in the mixed Polars and pandas environment.
pub const MIXED_PANDAS_PACKAGE_SOURCE: &'static str = r#"from pandas.core.frame import DataFrame as DataFrame"#;

/// The source of `frames` in its environment.
pub const FRAMES_SOURCE: &'static str = r#"
import polars as pl
left = pl.DataFrame(schema={"k": pl.Int64, "a": pl.Float64, "b": pl.String})
right = pl.DataFrame(schema={"k": pl.Int64, "a": pl.Int64, "c": pl.Boolean})
"#;

/// The modules of [`env_with_polars_stubs`].
pub open spec fn polars_stub_modules() -> Seq<ModuleSource> {
    Seq::empty()
        .push(module_source_at("polars.series.series", "polars/series/series.pyi", POLARS_SERIES_SERIES_SOURCE))
        .push(module_source_at("polars.dataframe.frame", "polars/dataframe/frame.pyi", POLARS_DATAFRAME_FRAME_SOURCE))
        .push(module_source_at("polars.lazyframe.frame", "polars/lazyframe/frame.pyi", POLARS_LAZYFRAME_FRAME_SOURCE))
        .push(module_source_at("polars.functions.eager", "polars/functions/eager.pyi", POLARS_FUNCTIONS_EAGER_SOURCE))
        .push(module_source_at("polars.io.csv.functions", "polars/io/csv/functions.pyi", POLARS_IO_CSV_FUNCTIONS_SOURCE))
        .push(module_source_at("polars.expr.expr", "polars/expr/expr.pyi", POLARS_EXPR_EXPR_SOURCE))
        .push(module_source_at("polars.functions.col", "polars/functions/col.pyi", POLARS_FUNCTIONS_COL_SOURCE))
        .push(module_source_at("polars.functions.lit", "polars/functions/lit.pyi", POLARS_FUNCTIONS_LIT_SOURCE))
        .push(module_source_at("polars.functions.len", "polars/functions/len.pyi", POLARS_FUNCTIONS_LEN_SOURCE))
        .push(module_source_at("polars.schema", "polars/schema.pyi", POLARS_SCHEMA_SOURCE))
        .push(module_source("polars", POLARS_PACKAGE_SOURCE))
        .push(module_source("mymod", MYMOD_SOURCE))
}

/// Minimal stubs with the real Polars qualified names.
pub fn env_with_polars_stubs() -> (r: TestEnv)
    ensures
        r@ == polars_stub_modules(),
{
    let mut env = TestEnv::new();
    env.add_with_path("polars.series.series", "polars/series/series.pyi", POLARS_SERIES_SERIES_SOURCE);
    env.add_with_path("polars.dataframe.frame", "polars/dataframe/frame.pyi", POLARS_DATAFRAME_FRAME_SOURCE);
    env.add_with_path("polars.lazyframe.frame", "polars/lazyframe/frame.pyi", POLARS_LAZYFRAME_FRAME_SOURCE);
    env.add_with_path("polars.functions.eager", "polars/functions/eager.pyi", POLARS_FUNCTIONS_EAGER_SOURCE);
    env.add_with_path("polars.io.csv.functions", "polars/io/csv/functions.pyi", POLARS_IO_CSV_FUNCTIONS_SOURCE);
    env.add_with_path("polars.expr.expr", "polars/expr/expr.pyi", POLARS_EXPR_EXPR_SOURCE);
    env.add_with_path("polars.functions.col", "polars/functions/col.pyi", POLARS_FUNCTIONS_COL_SOURCE);
    env.add_with_path("polars.functions.lit", "polars/functions/lit.pyi", POLARS_FUNCTIONS_LIT_SOURCE);
    env.add_with_path("polars.functions.len", "polars/functions/len.pyi", POLARS_FUNCTIONS_LEN_SOURCE);
    env.add_with_path("polars.schema", "polars/schema.pyi", POLARS_SCHEMA_SOURCE);
    env.add("polars", POLARS_PACKAGE_SOURCE);
    env.add("mymod", MYMOD_SOURCE);
    env
}

/// The modules of [`env_cross_file`].
pub open spec fn cross_file_modules() -> Seq<ModuleSource> {
    polars_stub_modules()
        .push(module_source("defs", DEFS_SOURCE))
}

/// The Polars stubs, with frames and series defined in another module.
pub fn env_cross_file() -> (r: TestEnv)
    ensures
        r@ == cross_file_modules(),
{
    let mut env = env_with_polars_stubs();
    env.add("defs", DEFS_SOURCE);
    env
}

/// The modules of [`env_with_pandas_stubs`].
pub open spec fn pandas_stub_modules() -> Seq<ModuleSource> {
    Seq::empty()
        .push(module_source_at("pandas.core.frame", "pandas/core/frame.pyi", PANDAS_CORE_FRAME_SOURCE))
        .push(module_source("pandas", PANDAS_PACKAGE_SOURCE))
}

/// Minimal stubs with the real pandas qualified names.
pub fn env_with_pandas_stubs() -> (r: TestEnv)
    ensures
        r@ == pandas_stub_modules(),
{
    let mut env = TestEnv::new();
    env.add_with_path("pandas.core.frame", "pandas/core/frame.pyi", PANDAS_CORE_FRAME_SOURCE);
    env.add("pandas", PANDAS_PACKAGE_SOURCE);
    env
}

/// The modules of [`env_with_polars_and_pandas_stubs`].
pub open spec fn polars_and_pandas_stub_modules() -> Seq<ModuleSource> {
    polars_stub_modules()
        .push(module_source_at("pandas.core.frame", "pandas/core/frame.pyi", MIXED_PANDAS_CORE_FRAME_SOURCE))
        .push(module_source("pandas", MIXED_PANDAS_PACKAGE_SOURCE))
}

/// Polars and pandas stubs for cross-library calls.
pub fn env_with_polars_and_pandas_stubs() -> (r: TestEnv)
    ensures
        r@ == polars_and_pandas_stub_modules(),
{
    let mut env = env_with_polars_stubs();
    env.add_with_path("pandas.core.frame", "pandas/core/frame.pyi", MIXED_PANDAS_CORE_FRAME_SOURCE);
    env.add("pandas", MIXED_PANDAS_PACKAGE_SOURCE);
    env
}

/// The modules of [`env_join`].
pub open spec fn join_modules() -> Seq<ModuleSource> {
    polars_stub_modules()
        .push(module_source("frames", FRAMES_SOURCE))
}

/// The Polars stubs, with frames that carry schemas in another module.
pub fn env_join() -> (r: TestEnv)
    ensures
        r@ == join_modules(),
{
    let mut env = env_with_polars_stubs();
    env.add("frames", FRAMES_SOURCE);
    env
}

} // verus!
