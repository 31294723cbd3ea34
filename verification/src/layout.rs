//! The LLVM type of each Brix type, and the registration of struct
//! definitions.

use vstd::prelude::*;
use inkwell::types::{BasicTypeEnum, PointerType};
use inkwell::context::Context;
use crate::types::{BrixType, TypeModel, models_of, lemma_models_of};
use crate::compiler::{Compiler, Field};
use crate::generics::{TypeParam, Param};
use crate::typeparse::{resolves, parse_type, alias_texts, resolve_type_text_within};
use crate::llvm;

verus! {

/// The LLVM type of a Brix type that depends on no registry: `i64` for
/// `int`, atoms and `void`, `double` for `float`, the `i8*` pointer for
/// heap values, raw pointers, `nil` and errors; `None` for `complex`,
/// tuples, structs, unions, intersections and optionals, which are laid
/// out as structs.
pub open spec fn scalar_llvm_type<'ctx>(ctx: &'ctx Context, ptr: PointerType<'ctx>, t: TypeModel) -> Option<BasicTypeEnum<'ctx>> {
    match t {
        TypeModel::Int | TypeModel::Atom | TypeModel::Void => Some(llvm::int_as_basic(llvm::context_i64(ctx))),
        TypeModel::Float => Some(llvm::float_as_basic(llvm::context_f64(ctx))),
        TypeModel::String | TypeModel::Matrix | TypeModel::IntMatrix | TypeModel::FloatPtr | TypeModel::Nil | TypeModel::Error
        | TypeModel::ComplexArray | TypeModel::ComplexMatrix => Some(llvm::pointer_as_basic(ptr)),
        _ => None,
    }
}

/// The types of the fields of each struct.
pub open spec fn field_types<E>(defs: Map<Seq<char>, Vec<Field<E>>>) -> Map<Seq<char>, Seq<TypeModel>> {
    Map::new(
        |k: Seq<char>| defs.dom().contains(k),
        |k: Seq<char>| Seq::new(defs[k]@.len(), |j: int| defs[k]@[j].1@),
    )
}

/// `t` can be given an LLVM type: it holds no optional (those are unions
/// by then), every struct it names is laid out, and the fields of the
/// structs an intersection merges can be given one in turn, within `depth`
/// levels of such merging.
pub open spec fn lowerable(
    t: TypeModel,
    laid_out: Set<Seq<char>>,
    fields: Map<Seq<char>, Seq<TypeModel>>,
    depth: nat,
) -> bool
    decreases depth, t,
{
    match t {
        TypeModel::Optional(_) => false,
        TypeModel::Struct(n) => laid_out.contains(n),
        TypeModel::Tuple(ms) => forall|i: int| 0 <= i < ms.len() ==> lowerable(ms[i], laid_out, fields, depth),
        TypeModel::Union(ms) => forall|i: int| 0 <= i < ms.len() ==> lowerable(ms[i], laid_out, fields, depth),
        TypeModel::Intersection(ms) => forall|i: int|
            0 <= i < ms.len() ==> match #[trigger] ms[i] {
                TypeModel::Struct(n) => fields.contains_key(n) ==> (depth > 0 && forall|j: int|
                    0 <= j < fields[n].len() ==> lowerable(#[trigger] fields[n][j], laid_out, fields, (depth - 1) as nat)),
                _ => lowerable(ms[i], laid_out, fields, depth),
            },
        _ => true,
    }
}

/// The member a union stores its value as: the first of the largest
/// sizes, when some size is positive; `None` when all are zero (the
/// value is then an `i64`).
pub fn union_payload_index(sizes: &Vec<u64>) -> (r: Option<usize>)
    ensures
        r matches Some(i) ==> {
            &&& i < sizes@.len()
            &&& sizes@[i as int] > 0
            &&& forall|j: int| 0 <= j < sizes@.len() ==> sizes@[j] <= sizes@[i as int]
            &&& forall|j: int| 0 <= j < i ==> sizes@[j] < sizes@[i as int]
        },
        r is None ==> forall|j: int| 0 <= j < sizes@.len() ==> sizes@[j] == 0,
{
    let mut best: Option<usize> = None;
    let mut max: u64 = 0;
    let mut k: usize = 0;
    while k < sizes.len()
        invariant
            k <= sizes@.len(),
            best is None ==> max == 0 && forall|j: int| 0 <= j < k ==> sizes@[j] == 0,
            best matches Some(i) ==> {
                &&& i < k
                &&& sizes@[i as int] == max
                &&& max > 0
                &&& forall|j: int| 0 <= j < k ==> sizes@[j] <= max
                &&& forall|j: int| 0 <= j < i ==> sizes@[j] < max
            },
        decreases sizes@.len() - k,
    {
        if sizes[k] > max {
            max = sizes[k];
            best = Some(k);
        }
        k = k + 1;
    }
    best
}

impl<'a, 'ctx, E, D> Compiler<'a, 'ctx, E, D> {
    /// Size in bytes LLVM folds for a type; 8 where it folds to no constant.
    fn folded_size(t: BasicTypeEnum<'ctx>) -> u64 {
        match llvm::type_size_of(t) {
            Some(v) => match llvm::zero_extended_constant(v) {
                Some(n) => n,
                None => 8,
            },
            None => 8,
        }
    }

    /// LLVM types of a member list, in order.
    fn lower_members(&self, ts: &Vec<BrixType>, Ghost(depth): Ghost<nat>) -> (r: Vec<BasicTypeEnum<'ctx>>)
        requires
            forall|i: int| 0 <= i < ts@.len() ==> lowerable(
                #[trigger] ts@[i]@,
                self.struct_types.map().dom(),
                field_types(self.struct_defs.map()),
                depth,
            ),
        ensures
            r@.len() == ts@.len(),
        decreases depth, ts,
    {
        let mut out: Vec<BasicTypeEnum<'ctx>> = Vec::new();
        let mut i: usize = 0;
        while i < ts.len()
            invariant
                i <= ts@.len(),
                out@.len() == i,
                forall|j: int| 0 <= j < ts@.len() ==> lowerable(
                    #[trigger] ts@[j]@,
                    self.struct_types.map().dom(),
                    field_types(self.struct_defs.map()),
                    depth,
                ),
            decreases ts@.len() - i,
        {
            proof {
                assert(decreases_to!(ts => ts@[i as int]));
            }
            let t = self.lower_type(&ts[i], Ghost(depth));
            out.push(t);
            i = i + 1;
        }
        out
    }

    /// LLVM types of the fields an intersection merges: each struct member
    /// contributes its fields (a struct not defined contributes none), any
    /// other member contributes its own type.
    fn lower_intersection(&self, ts: &Vec<BrixType>, Ghost(depth): Ghost<nat>) -> Vec<BasicTypeEnum<'ctx>>
        requires
            lowerable(
                TypeModel::Intersection(models_of(ts@)),
                self.struct_types.map().dom(),
                field_types(self.struct_defs.map()),
                depth,
            ),
        decreases depth, ts,
    {
        let ghost laid_out = self.struct_types.map().dom();
        let ghost fields = field_types(self.struct_defs.map());
        proof {
            lemma_models_of(ts@);
        }
        let mut all_fields: Vec<BasicTypeEnum<'ctx>> = Vec::new();
        let mut i: usize = 0;
        while i < ts.len()
            invariant
                i <= ts@.len(),
                laid_out == self.struct_types.map().dom(),
                fields == field_types(self.struct_defs.map()),
                lowerable(TypeModel::Intersection(models_of(ts@)), laid_out, fields, depth),
                forall|j: int| 0 <= j < ts@.len() ==> #[trigger] models_of(ts@)[j] == ts@[j]@,
            decreases ts@.len() - i,
        {
            proof {
                assert(decreases_to!(ts => ts@[i as int]));
                let it = TypeModel::Intersection(models_of(ts@));
                assert(it matches TypeModel::Intersection(xs) && xs == models_of(ts@));
            }
            let member = &ts[i];
            assert(models_of(ts@)[i as int] == member@);
            match member {
                BrixType::Struct(name) => {
                    if let Some(fs) = self.struct_defs.get(name.as_str()) {
                        let ghost n = name@;
                        assert(*fs == self.struct_defs.map()[n]);
                        assert(fields.contains_key(n));
                        assert(fields[n] =~= Seq::new(fs@.len(), |j: int| fs@[j].1@));
                        assert(models_of(ts@)[i as int] == TypeModel::Struct(n));
                        assert forall|q: int| 0 <= q < fs@.len() implies lowerable(
                            #[trigger] fs@[q].1@,
                            laid_out,
                            fields,
                            (depth - 1) as nat,
                        ) by {
                            assert(fields[n][q] == fs@[q].1@);
                            assert(lowerable(fields[n][q], laid_out, fields, (depth - 1) as nat));
                        }
                        let mut j: usize = 0;
                        while j < fs.len()
                            invariant
                                j <= fs@.len(),
                                depth > 0,
                                laid_out == self.struct_types.map().dom(),
                                fields == field_types(self.struct_defs.map()),
                                forall|q: int| 0 <= q < fs@.len() ==> lowerable(
                                    #[trigger] fs@[q].1@,
                                    laid_out,
                                    fields,
                                    (depth - 1) as nat,
                                ),
                            decreases fs@.len() - j,
                        {
                            let ft = self.lower_type(&fs[j].1, Ghost((depth - 1) as nat));
                            all_fields.push(ft);
                            j = j + 1;
                        }
                    }
                },
                _ => {
                    let ft = self.lower_type(member, Ghost(depth));
                    all_fields.push(ft);
                },
            }
            i = i + 1;
        }
        all_fields
    }

    /// The LLVM type of `t`, with `depth` bounding how deep intersections
    /// merge struct fields.
    fn lower_type(&self, t: &BrixType, Ghost(depth): Ghost<nat>) -> (r: BasicTypeEnum<'ctx>)
        requires
            lowerable(t@, self.struct_types.map().dom(), field_types(self.struct_defs.map()), depth),
        ensures
            scalar_llvm_type(self.context, self.opaque_ptr, t@) matches Some(l) ==> r == l,
            t@ matches TypeModel::Struct(n) ==> (self.struct_types.map().dom().contains(n) ==> r == llvm::struct_as_basic(
                self.struct_types.map()[n],
            )),
        decreases depth, t,
    {
        let ghost laid_out = self.struct_types.map().dom();
        let ghost fields = field_types(self.struct_defs.map());
        match t {
            BrixType::Int | BrixType::Atom | BrixType::Void => llvm::int_type_basic(llvm::i64_type(self.context)),
            BrixType::Float => llvm::float_type_basic(llvm::f64_type(self.context)),
            BrixType::String | BrixType::Matrix | BrixType::IntMatrix | BrixType::FloatPtr | BrixType::Nil
            | BrixType::Error | BrixType::ComplexArray | BrixType::ComplexMatrix => llvm::pointer_type_basic(self.ptr_type()),
            BrixType::Complex => {
                let f64_ty = llvm::float_type_basic(llvm::f64_type(self.context));
                let parts = vec![f64_ty, f64_ty];
                llvm::struct_type_basic(llvm::struct_type(self.context, &parts, false))
            },
            BrixType::Tuple(ts) => {
                proof {
                    lemma_models_of(ts@);
                    assert(t@ matches TypeModel::Tuple(xs) && xs == models_of(ts@));
                    assert forall|i: int| 0 <= i < ts@.len() implies lowerable(
                        #[trigger] ts@[i]@,
                        laid_out,
                        fields,
                        depth,
                    ) by {
                        assert(models_of(ts@)[i] == ts@[i]@);
                        assert(lowerable(models_of(ts@)[i], laid_out, fields, depth));
                    }
                }
                let parts = self.lower_members(ts, Ghost(depth));
                llvm::struct_type_basic(llvm::struct_type(self.context, &parts, false))
            },
            BrixType::Struct(name) => {
                match self.struct_types.get(name.as_str()) {
                    Some(st) => llvm::struct_type_basic(*st),
                    None => llvm::int_type_basic(llvm::i64_type(self.context)),
                }
            },
            BrixType::Union(ts) => {
                proof {
                    lemma_models_of(ts@);
                    assert(t@ matches TypeModel::Union(xs) && xs == models_of(ts@));
                    assert forall|i: int| 0 <= i < ts@.len() implies lowerable(
                        #[trigger] ts@[i]@,
                        laid_out,
                        fields,
                        depth,
                    ) by {
                        assert(models_of(ts@)[i] == ts@[i]@);
                        assert(lowerable(models_of(ts@)[i], laid_out, fields, depth));
                    }
                }
                let members = self.lower_members(ts, Ghost(depth));
                let mut sizes: Vec<u64> = Vec::new();
                let mut k: usize = 0;
                while k < members.len()
                    invariant
                        k <= members@.len(),
                        sizes@.len() == k,
                    decreases members@.len() - k,
                {
                    sizes.push(Self::folded_size(members[k]));
                    k = k + 1;
                }
                let payload = match union_payload_index(&sizes) {
                    Some(i) => members[i],
                    None => llvm::int_type_basic(llvm::i64_type(self.context)),
                };
                let parts = vec![llvm::int_type_basic(llvm::i64_type(self.context)), payload];
                llvm::struct_type_basic(llvm::struct_type(self.context, &parts, false))
            },
            BrixType::Intersection(ts) => {
                proof {
                    lemma_models_of(ts@);
                    assert(t@ matches TypeModel::Intersection(xs) && xs == models_of(ts@));
                }
                let all_fields = self.lower_intersection(ts, Ghost(depth));
                llvm::struct_type_basic(llvm::struct_type(self.context, &all_fields, false))
            },
            BrixType::Optional(_) => llvm::int_type_basic(llvm::i64_type(self.context)),
        }
    }

    /// The LLVM type that holds values of `brix_type`: `i64` for `int`,
    /// atoms (and `void`), `double` for `float`, a pointer for every heap
    /// value and `nil`/`error`, `{double, double}` for `complex`, a struct of
    /// the members for a tuple, the laid-out struct for a struct, `{i64 tag,
    /// largest member}` for a union and the merged fields for an
    /// intersection.
    pub fn brix_type_to_llvm(&self, brix_type: &BrixType) -> (r: BasicTypeEnum<'ctx>)
        requires
            exists|d: nat| lowerable(brix_type@, self.struct_types.map().dom(), field_types(self.struct_defs.map()), d),
        ensures
            scalar_llvm_type(self.context, self.opaque_ptr, brix_type@) matches Some(l) ==> r == l,
            brix_type@ matches TypeModel::Struct(n) ==> (self.struct_types.map().dom().contains(n) ==> r == llvm::struct_as_basic(
                self.struct_types.map()[n],
            )),
    {
        let ghost d = choose|d: nat| lowerable(brix_type@, self.struct_types.map().dom(), field_types(self.struct_defs.map()), d);
        self.lower_type(brix_type, Ghost(d))
    }
}

impl<'a, 'ctx, E, D> Compiler<'a, 'ctx, E, D> {
    /// The type the text of a field or parameter type denotes now.
    #[verifier::opaque]
    pub open spec fn denoted(&self, text: Seq<char>) -> TypeModel {
        parse_type(alias_texts(self.type_aliases.map()), self.struct_defs.map().dom(), text)
    }

    /// Every field's type text resolves, and the type it denotes can be
    /// laid out with the structs laid out so far.
    #[verifier::opaque]
    pub open spec fn fields_ready(&self, fields: Seq<Param<E>>) -> bool {
        forall|j: int| 0 <= j < fields.len() ==> {
            &&& resolves(alias_texts(self.type_aliases.map()), self.struct_defs.map().dom(), #[trigger] fields[j].ty@)
            &&& exists|d: nat| lowerable(
                self.denoted(fields[j].ty@),
                self.struct_types.map().dom(),
                field_types(self.struct_defs.map()),
                d,
            )
        }
    }

    proof fn lemma_denoted(&self, text: Seq<char>)
        ensures
            self.denoted(text) == parse_type(alias_texts(self.type_aliases.map()), self.struct_defs.map().dom(), text),
    {
        reveal(Compiler::denoted);
    }

    proof fn lemma_field_ready(&self, fields: Seq<Param<E>>, j: int)
        requires
            self.fields_ready(fields),
            0 <= j < fields.len(),
        ensures
            resolves(alias_texts(self.type_aliases.map()), self.struct_defs.map().dom(), fields[j].ty@),
            exists|d: nat| lowerable(
                self.denoted(fields[j].ty@),
                self.struct_types.map().dom(),
                field_types(self.struct_defs.map()),
                d,
            ),
    {
        reveal(Compiler::fields_ready);
    }

    /// Whether every field's type text resolves within `budget` nested
    /// resolutions and the type it denotes can be laid out now (within as
    /// many levels of intersection merging as there are structs, plus one).
    pub fn fields_ready_within(&self, fields: &[Param<E>], budget: u64) -> (r: bool)
        ensures
            r ==> self.fields_ready(fields@),
    {
        let n = self.struct_defs.len();
        if n == usize::MAX {
            return false;
        }
        let depth = n + 1;
        let mut j: usize = 0;
        while j < fields.len()
            invariant
                j <= fields@.len(),
                depth == self.struct_defs.spec_len() + 1,
                forall|q: int| 0 <= q < j ==> {
                    &&& resolves(alias_texts(self.type_aliases.map()), self.struct_defs.map().dom(), #[trigger] fields@[q].ty@)
                    &&& lowerable(
                        self.denoted(fields@[q].ty@),
                        self.struct_types.map().dom(),
                        field_types(self.struct_defs.map()),
                        depth as nat,
                    )
                },
            decreases fields@.len() - j,
        {
            match resolve_type_text_within(&self.type_aliases, &self.struct_defs, fields[j].ty.as_str(), budget) {
                None => return false,
                Some(t) => {
                    if !self.type_lowerable(&t, depth) {
                        return false;
                    }
                    proof {
                        self.lemma_denoted(fields@[j as int].ty@);
                    }
                },
            }
            j = j + 1;
        }
        proof {
            reveal(Compiler::fields_ready);
            assert forall|q: int| 0 <= q < fields@.len() implies {
                &&& resolves(alias_texts(self.type_aliases.map()), self.struct_defs.map().dom(), #[trigger] fields@[q].ty@)
                &&& exists|d: nat| lowerable(
                    self.denoted(fields@[q].ty@),
                    self.struct_types.map().dom(),
                    field_types(self.struct_defs.map()),
                    d,
                )
            } by {
                assert(lowerable(
                    self.denoted(fields@[q].ty@),
                    self.struct_types.map().dom(),
                    field_types(self.struct_defs.map()),
                    depth as nat,
                ));
            }
        }
        true
    }

    /// Registers a struct definition. A generic struct is kept as it is,
    /// to be instantiated per use; any other is laid out at once.
    pub fn compile_struct_def(
        &mut self,
        name: &str,
        type_params: &[TypeParam],
        fields: Vec<Param<E>>,
        struct_def: D,
    ) -> (r: Result<(), crate::compiler::CodegenError>)
        requires
            type_params@.len() == 0 ==> old(self).fields_ready(fields@),
        ensures
            r is Ok,
            type_params@.len() > 0 ==> {
                &&& final(self).generic_structs.map() == old(self).generic_structs.map().insert(name@, struct_def)
                &&& final(self).struct_defs == old(self).struct_defs
                &&& final(self).struct_types == old(self).struct_types
            },
            type_params@.len() == 0 ==> old(self).struct_defined(*final(self), name@, fields@),
            type_params@.len() == 0 ==> final(self).generic_structs == old(self).generic_structs,
            final(self).type_aliases == old(self).type_aliases,
            final(self).variables == old(self).variables,
    {
        if type_params.len() > 0 {
            self.generic_structs.insert(String::from_str(name), struct_def);
            return Ok(());
        }
        self.define_struct(name, fields);
        Ok(())
    }

    /// `after` holds the struct `name` with `fields` laid out as `self`
    /// resolves their types, and the other structs as `self` has them.
    pub open spec fn struct_defined(&self, after: Self, name: Seq<char>, fields: Seq<Param<E>>) -> bool {
        &&& after.struct_defs.map().dom() == self.struct_defs.map().dom().insert(name)
        &&& after.struct_defs.map()[name]@.len() == fields.len()
        &&& forall|j: int| 0 <= j < fields.len() ==> {
            &&& (#[trigger] after.struct_defs.map()[name]@[j]).0@ == fields[j].name@
            &&& after.struct_defs.map()[name]@[j].1@ == self.denoted(fields[j].ty@)
            &&& after.struct_defs.map()[name]@[j].2 == fields[j].default
        }
        &&& forall|k: Seq<char>| k != name && self.struct_defs.map().dom().contains(k)
            ==> #[trigger] after.struct_defs.map()[k] == self.struct_defs.map()[k]
        &&& after.struct_types.map().dom() == self.struct_types.map().dom().insert(name)
    }

    /// Lays out a struct that is not generic: its field types are resolved,
    /// a named LLVM struct of those fields is created, and both are
    /// recorded under its name.
    pub fn define_struct(&mut self, name: &str, fields: Vec<Param<E>>)
        requires
            old(self).fields_ready(fields@),
        ensures
            old(self).struct_defined(*final(self), name@, fields@),
            final(self).generic_structs == old(self).generic_structs,
            final(self).generic_functions == old(self).generic_functions,
            final(self).generic_methods == old(self).generic_methods,
            final(self).monomorphized_cache == old(self).monomorphized_cache,
            final(self).type_aliases == old(self).type_aliases,
            final(self).variables == old(self).variables,
            final(self).current_function == old(self).current_function,
    {
        let ghost fs = fields@;
        let n = fields.len();
        let mut metadata: Vec<Field<E>> = Vec::new();
        let mut llvm_fields: Vec<BasicTypeEnum<'ctx>> = Vec::new();
        let mut rest = fields;
        let mut j: usize = 0;
        while rest.len() > 0
            invariant
                j + rest@.len() == fs.len(),
                fs.len() == n,
                rest@ == fs.subrange(j as int, fs.len() as int),
                self.fields_ready(fs),
                metadata@.len() == j,
                llvm_fields@.len() == j,
                forall|q: int| 0 <= q < j ==> {
                    &&& (#[trigger] metadata@[q]).0@ == fs[q].name@
                    &&& metadata@[q].1@ == self.denoted(fs[q].ty@)
                    &&& metadata@[q].2 == fs[q].default
                },
            decreases rest@.len(),
        {
            let ghost before = rest@;
            let field = rest.remove(0);
            proof {
                assert(field == fs[j as int]);
                assert(rest@ =~= fs.subrange(j + 1, fs.len() as int));
            }
            proof {
                self.lemma_field_ready(fs, j as int);
                self.lemma_denoted(fs[j as int].ty@);
            }
            let ty = self.string_to_brix_type(field.ty.as_str());
            let lowered = self.brix_type_to_llvm(&ty);
            metadata.push((field.name, ty, field.default));
            llvm_fields.push(lowered);
            j = j + 1;
        }
        let st = llvm::opaque_struct_type(self.context, name);
        llvm::set_struct_body(st, &llvm_fields, false);
        let ghost meta = metadata@;
        self.struct_defs.insert(String::from_str(name), metadata);
        self.struct_types.insert(String::from_str(name), st);
    }
}

impl<'a, 'ctx, E, D> Compiler<'a, 'ctx, E, D> {
    /// Whether every member of `ts` can be laid out within `depth`.
    fn members_lowerable(&self, ts: &Vec<BrixType>, depth: usize) -> (r: bool)
        ensures
            r <==> forall|i: int| 0 <= i < ts@.len() ==> lowerable(
                #[trigger] ts@[i]@,
                self.struct_types.map().dom(),
                field_types(self.struct_defs.map()),
                depth as nat,
            ),
        decreases depth, ts,
    {
        let mut i: usize = 0;
        while i < ts.len()
            invariant
                i <= ts@.len(),
                forall|j: int| 0 <= j < i ==> lowerable(
                    #[trigger] ts@[j]@,
                    self.struct_types.map().dom(),
                    field_types(self.struct_defs.map()),
                    depth as nat,
                ),
            decreases ts@.len() - i,
        {
            proof {
                assert(decreases_to!(ts => ts@[i as int]));
            }
            if !self.type_lowerable(&ts[i], depth) {
                return false;
            }
            i = i + 1;
        }
        true
    }

    /// Whether the members of an intersection can be laid out within
    /// `depth`.
    fn intersection_lowerable(&self, ts: &Vec<BrixType>, depth: usize) -> (r: bool)
        ensures
            r <==> lowerable(
                TypeModel::Intersection(models_of(ts@)),
                self.struct_types.map().dom(),
                field_types(self.struct_defs.map()),
                depth as nat,
            ),
        decreases depth, ts,
    {
        let ghost laid_out = self.struct_types.map().dom();
        let ghost fields = field_types(self.struct_defs.map());
        proof {
            lemma_models_of(ts@);
        }
        let mut i: usize = 0;
        while i < ts.len()
            invariant
                i <= ts@.len(),
                laid_out == self.struct_types.map().dom(),
                fields == field_types(self.struct_defs.map()),
                forall|j: int| 0 <= j < ts@.len() ==> #[trigger] models_of(ts@)[j] == ts@[j]@,
                forall|j: int| 0 <= j < i ==> match #[trigger] models_of(ts@)[j] {
                    TypeModel::Struct(n) => fields.contains_key(n) ==> (depth > 0 && forall|q: int|
                        0 <= q < fields[n].len() ==> lowerable(#[trigger] fields[n][q], laid_out, fields, (depth - 1) as nat)),
                    _ => lowerable(models_of(ts@)[j], laid_out, fields, depth as nat),
                },
            decreases ts@.len() - i,
        {
            proof {
                assert(decreases_to!(ts => ts@[i as int]));
            }
            let member = &ts[i];
            assert(models_of(ts@)[i as int] == member@);
            match member {
                BrixType::Struct(name) => {
                    if let Some(fs) = self.struct_defs.get(name.as_str()) {
                        let ghost n = name@;
                        if depth == 0 {
                            proof {
                                let it = TypeModel::Intersection(models_of(ts@));
                                assert(it matches TypeModel::Intersection(xs) && xs == models_of(ts@));
                                assert(fields.contains_key(n));
                                assert(models_of(ts@)[i as int] == TypeModel::Struct(n));
                            }
                            return false;
                        }
                        assert(*fs == self.struct_defs.map()[n]);
                        assert(fields.contains_key(n));
                        assert(fields[n] =~= Seq::new(fs@.len(), |j: int| fs@[j].1@));
                        let mut q: usize = 0;
                        while q < fs.len()
                            invariant
                                q <= fs@.len(),
                                depth > 0,
                                laid_out == self.struct_types.map().dom(),
                                fields == field_types(self.struct_defs.map()),
                                fields.contains_key(n),
                                fields[n] == Seq::new(fs@.len(), |j: int| fs@[j].1@),
                                i < ts@.len(),
                                models_of(ts@)[i as int] == TypeModel::Struct(n),
                                forall|k: int| 0 <= k < q ==> lowerable(
                                    #[trigger] fields[n][k],
                                    laid_out,
                                    fields,
                                    (depth - 1) as nat,
                                ),
                            decreases fs@.len() - q,
                        {
                            if !self.type_lowerable(&fs[q].1, depth - 1) {
                                proof {
                                    let it = TypeModel::Intersection(models_of(ts@));
                                    assert(it matches TypeModel::Intersection(xs) && xs == models_of(ts@));
                                    assert(fields[n][q as int] == fs@[q as int].1@);
                                    if lowerable(it, laid_out, fields, depth as nat) {
                                        let m = models_of(ts@)[i as int];
                                        assert(m == TypeModel::Struct(n));
                                        assert(m matches TypeModel::Struct(nn) && nn == n);
                                        assert(fields.contains_key(n));
                                        assert(lowerable(fields[n][q as int], laid_out, fields, (depth - 1) as nat));
                                        assert(false);
                                    }
                                }
                                return false;
                            }
                            assert(fields[n][q as int] == fs@[q as int].1@);
                            q = q + 1;
                        }
                    } else {
                        assert(!fields.contains_key(name@));
                    }
                },
                _ => {
                    if !self.type_lowerable(member, depth) {
                        proof {
                            let it = TypeModel::Intersection(models_of(ts@));
                            assert(it matches TypeModel::Intersection(xs) && xs == models_of(ts@));
                        }
                        return false;
                    }
                },
            }
            i = i + 1;
        }
        proof {
            let it = TypeModel::Intersection(models_of(ts@));
            assert(it matches TypeModel::Intersection(xs) && xs == models_of(ts@));
        }
        true
    }

    /// Whether `t` can be laid out with intersections merging struct fields
    /// at most `depth` levels deep.
    pub fn type_lowerable(&self, t: &BrixType, depth: usize) -> (r: bool)
        ensures
            r <==> lowerable(t@, self.struct_types.map().dom(), field_types(self.struct_defs.map()), depth as nat),
        decreases depth, t,
    {
        match t {
            BrixType::Optional(_) => false,
            BrixType::Struct(name) => self.struct_types.contains_key(name.as_str()),
            BrixType::Tuple(ts) => {
                let ok = self.members_lowerable(ts, depth);
                proof {
                    lemma_models_of(ts@);
                    let tt = TypeModel::Tuple(models_of(ts@));
                    assert(tt matches TypeModel::Tuple(xs) && xs == models_of(ts@));
                    if !ok {
                        let i = choose|i: int| 0 <= i < ts@.len() && !lowerable(
                            #[trigger] ts@[i]@,
                            self.struct_types.map().dom(),
                            field_types(self.struct_defs.map()),
                            depth as nat,
                        );
                        assert(models_of(ts@)[i] == ts@[i]@);
                    }
                    if ok {
                        assert forall|i: int| 0 <= i < models_of(ts@).len() implies lowerable(
                            models_of(ts@)[i],
                            self.struct_types.map().dom(),
                            field_types(self.struct_defs.map()),
                            depth as nat,
                        ) by {
                            assert(models_of(ts@)[i] == ts@[i]@);
                        }
                    }
                }
                ok
            },
            BrixType::Union(ts) => {
                let ok = self.members_lowerable(ts, depth);
                proof {
                    lemma_models_of(ts@);
                    let tt = TypeModel::Union(models_of(ts@));
                    assert(tt matches TypeModel::Union(xs) && xs == models_of(ts@));
                    if !ok {
                        let i = choose|i: int| 0 <= i < ts@.len() && !lowerable(
                            #[trigger] ts@[i]@,
                            self.struct_types.map().dom(),
                            field_types(self.struct_defs.map()),
                            depth as nat,
                        );
                        assert(models_of(ts@)[i] == ts@[i]@);
                    }
                    if ok {
                        assert forall|i: int| 0 <= i < models_of(ts@).len() implies lowerable(
                            models_of(ts@)[i],
                            self.struct_types.map().dom(),
                            field_types(self.struct_defs.map()),
                            depth as nat,
                        ) by {
                            assert(models_of(ts@)[i] == ts@[i]@);
                        }
                    }
                }
                ok
            },
            BrixType::Intersection(ts) => self.intersection_lowerable(ts, depth),
            _ => true,
        }
    }

    /// The LLVM type of `t` when it can be laid out (within as many levels
    /// of intersection merging as there are structs, plus one); `None` when
    /// it names a struct not laid out, holds an optional, or merges deeper.
    pub fn try_brix_type_to_llvm(&self, t: &BrixType) -> (r: Option<BasicTypeEnum<'ctx>>)
        ensures
            r matches Some(x) ==> (scalar_llvm_type(self.context, self.opaque_ptr, t@) matches Some(l) ==> x == l),
            r is None <==> (self.struct_defs.spec_len() + 1 > usize::MAX || !lowerable(
                t@,
                self.struct_types.map().dom(),
                field_types(self.struct_defs.map()),
                (self.struct_defs.spec_len() + 1) as nat,
            )),
    {
        let n = self.struct_defs.len();
        if n == usize::MAX {
            return None;
        }
        if self.type_lowerable(t, n + 1) {
            Some(self.brix_type_to_llvm(t))
        } else {
            None
        }
    }
}

} // verus!
