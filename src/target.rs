use vstd::prelude::*;
use vstd::std_specs::cmp::PartialEqSpec;

verus! {

/// The calling convention that kernels of a target are compiled with.
#[derive(Clone, Copy, Debug, PartialEq, Eq, Structural)]
pub enum KernelAbi {
    Rust,
    C,
    SpirKernel,
    AmdGpuKernel,
    PtxKernel,
}

/// The description of a target machine that the code generation backend
/// works from. Every field but `is_builtin` is part of the target's identity.
#[derive(Clone, Debug)]
pub struct TargetSpec {
    pub llvm_target: String,
    pub target_endian: String,
    pub target_pointer_width: String,
    pub target_c_int_width: String,
    pub target_os: String,
    pub target_env: String,
    pub target_vendor: String,
    pub arch: String,
    pub data_layout: String,
    pub linker_flavor: String,
    /// Whether the backend knows this target by name; not part of its identity.
    pub is_builtin: bool,
    pub linker: Option<String>,
    pub pre_link_args: Vec<String>,
    pub cpu: String,
    pub features: String,
    pub dynamic_linking: bool,
    pub executables: bool,
    pub relocation_model: String,
    pub code_model: Option<String>,
    pub position_independent_executables: bool,
    pub max_atomic_width: Option<u64>,
    pub singlethread: bool,
}

/// The identity of a target machine: its description without `is_builtin`.
pub struct TargetSpecView {
    pub llvm_target: Seq<char>,
    pub target_endian: Seq<char>,
    pub target_pointer_width: Seq<char>,
    pub target_c_int_width: Seq<char>,
    pub target_os: Seq<char>,
    pub target_env: Seq<char>,
    pub target_vendor: Seq<char>,
    pub arch: Seq<char>,
    pub data_layout: Seq<char>,
    pub linker_flavor: Seq<char>,
    pub linker: Option<Seq<char>>,
    pub pre_link_args: Seq<Seq<char>>,
    pub cpu: Seq<char>,
    pub features: Seq<char>,
    pub dynamic_linking: bool,
    pub executables: bool,
    pub relocation_model: Seq<char>,
    pub code_model: Option<Seq<char>>,
    pub position_independent_executables: bool,
    pub max_atomic_width: Option<u64>,
    pub singlethread: bool,
}

pub open spec fn opt_str_view(o: Option<String>) -> Option<Seq<char>> {
    match o {
        Some(s) => Some(s@),
        None => None,
    }
}

pub open spec fn strs_view(v: Seq<String>) -> Seq<Seq<char>> {
    v.map_values(|s: String| s@)
}

impl View for TargetSpec {
    type V = TargetSpecView;

    open spec fn view(&self) -> TargetSpecView {
        TargetSpecView {
            llvm_target: self.llvm_target@,
            target_endian: self.target_endian@,
            target_pointer_width: self.target_pointer_width@,
            target_c_int_width: self.target_c_int_width@,
            target_os: self.target_os@,
            target_env: self.target_env@,
            target_vendor: self.target_vendor@,
            arch: self.arch@,
            data_layout: self.data_layout@,
            linker_flavor: self.linker_flavor@,
            linker: opt_str_view(self.linker),
            pre_link_args: strs_view(self.pre_link_args@),
            cpu: self.cpu@,
            features: self.features@,
            dynamic_linking: self.dynamic_linking,
            executables: self.executables,
            relocation_model: self.relocation_model@,
            code_model: opt_str_view(self.code_model),
            position_independent_executables: self.position_independent_executables,
            max_atomic_width: self.max_atomic_width,
            singlethread: self.singlethread,
        }
    }
}

/// What an accelerator supports best: whether indirect calls are allowed,
/// the kernel calling convention, the device feature names, the extension
/// names, and the target machine. Immutable once built.
#[derive(Clone, Debug)]
pub struct AcceleratorTargetDesc {
    pub allow_indirect_function_calls: bool,
    pub kernel_abi: KernelAbi,
    pub features: Vec<String>,
    pub extensions: Vec<String>,
    pub target: TargetSpec,
}

/// The identity of a target description, over which both `==` and the
/// stable hash are taken.
pub struct TargetDescView {
    pub allow_indirect_function_calls: bool,
    pub kernel_abi: KernelAbi,
    pub features: Seq<Seq<char>>,
    pub extensions: Seq<Seq<char>>,
    pub target: TargetSpecView,
}

impl View for AcceleratorTargetDesc {
    type V = TargetDescView;

    open spec fn view(&self) -> TargetDescView {
        TargetDescView {
            allow_indirect_function_calls: self.allow_indirect_function_calls,
            kernel_abi: self.kernel_abi,
            features: strs_view(self.features@),
            extensions: strs_view(self.extensions@),
            target: self.target@,
        }
    }
}

pub open spec fn spirv_triple() -> Seq<char> {
    "spir64-unknown-unknown"@
}

/// Eight bytes, least significant first.
pub open spec fn u64_le(v: u64) -> Seq<u8> {
    seq![
        (v % 0x100) as u8,
        ((v / 0x100) % 0x100) as u8,
        ((v / 0x1_0000) % 0x100) as u8,
        ((v / 0x100_0000) % 0x100) as u8,
        ((v / 0x1_0000_0000) % 0x100) as u8,
        ((v / 0x100_0000_0000) % 0x100) as u8,
        ((v / 0x1_0000_0000_0000) % 0x100) as u8,
        ((v / 0x100_0000_0000_0000) % 0x100) as u8,
    ]
}

/// A character's scalar value in four bytes, least significant first.
pub open spec fn char_le(c: char) -> Seq<u8> {
    let v = c as u32;
    seq![
        (v % 0x100) as u8,
        ((v / 0x100) % 0x100) as u8,
        ((v / 0x1_0000) % 0x100) as u8,
        ((v / 0x100_0000) % 0x100) as u8,
    ]
}

pub open spec fn enc_chars(s: Seq<char>) -> Seq<u8>
    decreases s.len(),
{
    if s.len() == 0 {
        Seq::empty()
    } else {
        enc_chars(s.drop_last()) + char_le(s.last())
    }
}

/// A string: its length in characters, then each character.
pub open spec fn enc_str(s: Seq<char>) -> Seq<u8> {
    u64_le(s.len() as u64) + enc_chars(s)
}

pub open spec fn enc_bool(b: bool) -> Seq<u8> {
    seq![if b { 1u8 } else { 0u8 }]
}

pub open spec fn enc_opt_str(o: Option<Seq<char>>) -> Seq<u8> {
    match o {
        Some(s) => seq![1u8] + enc_str(s),
        None => seq![0u8],
    }
}

pub open spec fn enc_opt_u64(o: Option<u64>) -> Seq<u8> {
    match o {
        Some(v) => seq![1u8] + u64_le(v),
        None => seq![0u8],
    }
}

pub open spec fn enc_strs(v: Seq<Seq<char>>) -> Seq<u8>
    decreases v.len(),
{
    if v.len() == 0 {
        Seq::empty()
    } else {
        enc_strs(v.drop_last()) + enc_str(v.last())
    }
}

/// A list of strings: its length, then each string.
pub open spec fn enc_list(v: Seq<Seq<char>>) -> Seq<u8> {
    u64_le(v.len() as u64) + enc_strs(v)
}

pub open spec fn abi_code(a: KernelAbi) -> u8 {
    match a {
        KernelAbi::Rust => 0,
        KernelAbi::C => 1,
        KernelAbi::SpirKernel => 2,
        KernelAbi::AmdGpuKernel => 3,
        KernelAbi::PtxKernel => 4,
    }
}

/// The canonical bytes of the machine part of a target's identity.
pub open spec fn machine_encoding(t: TargetSpecView) -> Seq<u8> {
    enc_str(t.llvm_target) + enc_str(t.target_endian) + enc_str(t.target_pointer_width)
        + enc_str(t.target_c_int_width) + enc_str(t.target_os) + enc_str(t.target_env)
        + enc_str(t.target_vendor) + enc_str(t.arch) + enc_str(t.data_layout) + enc_str(
        t.linker_flavor,
    )
}

/// The canonical bytes of the linking options of a target's identity.
pub open spec fn link_encoding(t: TargetSpecView) -> Seq<u8> {
    enc_opt_str(t.linker) + enc_list(t.pre_link_args) + enc_bool(t.dynamic_linking) + enc_bool(
        t.executables,
    ) + enc_bool(t.position_independent_executables)
}

/// The canonical bytes of the code generation options of a target's identity.
pub open spec fn codegen_encoding(t: TargetSpecView) -> Seq<u8> {
    enc_str(t.cpu) + enc_str(t.features) + enc_str(t.relocation_model) + enc_opt_str(t.code_model)
        + enc_opt_u64(t.max_atomic_width) + enc_bool(t.singlethread)
}

/// The canonical bytes of the code generation and linking options of a
/// target's identity.
pub open spec fn options_encoding(t: TargetSpecView) -> Seq<u8> {
    link_encoding(t) + codegen_encoding(t)
}

/// The canonical bytes of a target machine's identity, field by field.
pub open spec fn target_encoding(t: TargetSpecView) -> Seq<u8> {
    machine_encoding(t) + options_encoding(t)
}

/// The canonical bytes of a target description's identity.
pub open spec fn stable_encoding(d: TargetDescView) -> Seq<u8> {
    enc_bool(d.allow_indirect_function_calls) + seq![abi_code(d.kernel_abi)] + enc_list(d.features)
        + enc_list(d.extensions) + target_encoding(d.target)
}

/// The result of `seahash::hash` on a byte string.
pub uninterp spec fn seahash_of(bytes: Seq<u8>) -> u64;

/// The stable fingerprint of a target description's identity.
pub open spec fn stable_hash(d: TargetDescView) -> u64 {
    seahash_of(stable_encoding(d))
}

/// Relies on `seahash::hash`: a hash with fixed seeds, so its value depends
/// on the bytes alone.
#[verifier::external_body]
fn seahash_bytes(bytes: &Vec<u8>) -> (r: u64)
    ensures
        r == seahash_of(bytes@),
{
    seahash::hash(bytes.as_slice())
}

fn put_u64(out: &mut Vec<u8>, v: u64)
    ensures
        final(out)@ == old(out)@ + u64_le(v),
{
    out.push((v % 0x100) as u8);
    out.push(((v / 0x100) % 0x100) as u8);
    out.push(((v / 0x1_0000) % 0x100) as u8);
    out.push(((v / 0x100_0000) % 0x100) as u8);
    out.push(((v / 0x1_0000_0000) % 0x100) as u8);
    out.push(((v / 0x100_0000_0000) % 0x100) as u8);
    out.push(((v / 0x1_0000_0000_0000) % 0x100) as u8);
    out.push(((v / 0x100_0000_0000_0000) % 0x100) as u8);
    assert(final(out)@ =~= old(out)@ + u64_le(v));
}

fn put_bool(out: &mut Vec<u8>, b: bool)
    ensures
        final(out)@ == old(out)@ + enc_bool(b),
{
    out.push(if b { 1u8 } else { 0u8 });
    assert(final(out)@ =~= old(out)@ + enc_bool(b));
}

fn put_char(out: &mut Vec<u8>, c: char)
    ensures
        final(out)@ == old(out)@ + char_le(c),
{
    let v = c as u32;
    out.push((v % 0x100) as u8);
    out.push(((v / 0x100) % 0x100) as u8);
    out.push(((v / 0x1_0000) % 0x100) as u8);
    out.push(((v / 0x100_0000) % 0x100) as u8);
    assert(final(out)@ =~= old(out)@ + char_le(c));
}

fn put_str(out: &mut Vec<u8>, s: &String)
    ensures
        final(out)@ == old(out)@ + enc_str(s@),
{
    let text = s.as_str();
    let n = text.unicode_len();
    put_u64(out, n as u64);
    let ghost start = out@;
    let mut i: usize = 0;
    while i < n
        invariant
            n == s@.len(),
            text@ == s@,
            0 <= i <= n,
            out@ == start + enc_chars(s@.take(i as int)),
        decreases n - i,
    {
        let c = text.get_char(i);
        put_char(out, c);
        proof {
            assert(s@.take(i + 1).drop_last() =~= s@.take(i as int));
        }
        i = i + 1;
    }
    assert(s@.take(n as int) =~= s@);
    assert(final(out)@ =~= old(out)@ + enc_str(s@));
}

fn put_opt_str(out: &mut Vec<u8>, o: &Option<String>)
    ensures
        final(out)@ == old(out)@ + enc_opt_str(opt_str_view(*o)),
{
    match o {
        Some(s) => {
            out.push(1u8);
            put_str(out, s);
            assert(final(out)@ =~= old(out)@ + enc_opt_str(opt_str_view(*o)));
        },
        None => {
            out.push(0u8);
            assert(final(out)@ =~= old(out)@ + enc_opt_str(opt_str_view(*o)));
        },
    }
}

fn put_opt_u64(out: &mut Vec<u8>, o: Option<u64>)
    ensures
        final(out)@ == old(out)@ + enc_opt_u64(o),
{
    match o {
        Some(v) => {
            out.push(1u8);
            put_u64(out, v);
            assert(final(out)@ =~= old(out)@ + enc_opt_u64(o));
        },
        None => {
            out.push(0u8);
            assert(final(out)@ =~= old(out)@ + enc_opt_u64(o));
        },
    }
}

fn put_list(out: &mut Vec<u8>, v: &Vec<String>)
    ensures
        final(out)@ == old(out)@ + enc_list(strs_view(v@)),
{
    let n = v.len();
    put_u64(out, n as u64);
    let ghost start = out@;
    let mut i: usize = 0;
    while i < n
        invariant
            n == v@.len(),
            0 <= i <= n,
            out@ == start + enc_strs(strs_view(v@).take(i as int)),
        decreases n - i,
    {
        put_str(out, &v[i]);
        proof {
            assert(strs_view(v@).take(i + 1).drop_last() =~= strs_view(v@).take(i as int));
        }
        i = i + 1;
    }
    assert(strs_view(v@).take(n as int) =~= strs_view(v@));
    assert(final(out)@ =~= old(out)@ + enc_list(strs_view(v@)));
}

fn strs_equal(a: &Vec<String>, b: &Vec<String>) -> (r: bool)
    ensures
        r == (strs_view(a@) == strs_view(b@)),
{
    if a.len() != b.len() {
        assert(strs_view(a@).len() != strs_view(b@).len());
        return false;
    }
    let mut i: usize = 0;
    while i < a.len()
        invariant
            a@.len() == b@.len(),
            0 <= i <= a@.len(),
            forall|j: int| 0 <= j < i ==> a@[j]@ == b@[j]@,
        decreases a@.len() - i,
    {
        if a[i] != b[i] {
            assert(strs_view(a@)[i as int] != strs_view(b@)[i as int]);
            return false;
        }
        i = i + 1;
    }
    assert(strs_view(a@) =~= strs_view(b@));
    true
}

fn opt_str_equal(a: &Option<String>, b: &Option<String>) -> (r: bool)
    ensures
        r == (opt_str_view(*a) == opt_str_view(*b)),
{
    match a {
        Some(x) => match b {
            Some(y) => {
                let r = *x == *y;
                assert(r == (opt_str_view(*a) == opt_str_view(*b)));
                r
            },
            None => false,
        },
        None => b.is_none(),
    }
}

fn opt_u64_equal(a: Option<u64>, b: Option<u64>) -> (r: bool)
    ensures
        r == (a == b),
{
    match (a, b) {
        (Some(x), Some(y)) => x == y,
        (None, None) => true,
        _ => false,
    }
}

fn clone_strs(v: &Vec<String>) -> (r: Vec<String>)
    ensures
        r@ == v@,
{
    let mut out: Vec<String> = Vec::new();
    let mut i: usize = 0;
    while i < v.len()
        invariant
            0 <= i <= v@.len(),
            out@ == v@.take(i as int),
        decreases v@.len() - i,
    {
        out.push(v[i].clone());
        assert(out@ =~= v@.take(i + 1));
        i = i + 1;
    }
    assert(v@.take(v@.len() as int) =~= v@);
    out
}

fn clone_opt_str(o: &Option<String>) -> (r: Option<String>)
    ensures
        r == *o,
{
    match o {
        Some(s) => Some(s.clone()),
        None => None,
    }
}

impl TargetSpec {
    /// A field-for-field copy.
    pub fn duplicate(&self) -> (r: TargetSpec)
        ensures
            r@ == self@,
            r.is_builtin == self.is_builtin,
    {
        TargetSpec {
            llvm_target: self.llvm_target.clone(),
            target_endian: self.target_endian.clone(),
            target_pointer_width: self.target_pointer_width.clone(),
            target_c_int_width: self.target_c_int_width.clone(),
            target_os: self.target_os.clone(),
            target_env: self.target_env.clone(),
            target_vendor: self.target_vendor.clone(),
            arch: self.arch.clone(),
            data_layout: self.data_layout.clone(),
            linker_flavor: self.linker_flavor.clone(),
            is_builtin: self.is_builtin,
            linker: clone_opt_str(&self.linker),
            pre_link_args: clone_strs(&self.pre_link_args),
            cpu: self.cpu.clone(),
            features: self.features.clone(),
            dynamic_linking: self.dynamic_linking,
            executables: self.executables,
            relocation_model: self.relocation_model.clone(),
            code_model: clone_opt_str(&self.code_model),
            position_independent_executables: self.position_independent_executables,
            max_atomic_width: self.max_atomic_width,
            singlethread: self.singlethread,
        }
    }

    /// Whether two target machines have the same identity.
    pub fn same_identity(&self, o: &TargetSpec) -> (r: bool)
        ensures
            r == (self@ == o@),
    {
        self.llvm_target == o.llvm_target && self.target_endian == o.target_endian
            && self.target_pointer_width == o.target_pointer_width && self.target_c_int_width
            == o.target_c_int_width && self.target_os == o.target_os && self.target_env
            == o.target_env && self.target_vendor == o.target_vendor && self.arch == o.arch
            && self.data_layout == o.data_layout && self.linker_flavor == o.linker_flavor
            && opt_str_equal(&self.linker, &o.linker) && strs_equal(
            &self.pre_link_args,
            &o.pre_link_args,
        ) && self.cpu == o.cpu && self.features == o.features && self.dynamic_linking
            == o.dynamic_linking && self.executables == o.executables && self.relocation_model
            == o.relocation_model && opt_str_equal(&self.code_model, &o.code_model)
            && self.position_independent_executables == o.position_independent_executables
            && opt_u64_equal(self.max_atomic_width, o.max_atomic_width) && self.singlethread
            == o.singlethread
    }

    fn put_machine(&self, out: &mut Vec<u8>)
        ensures
            final(out)@ == old(out)@ + machine_encoding(self@),
    {
        let ghost start = out@;
        put_str(out, &self.llvm_target);
        put_str(out, &self.target_endian);
        put_str(out, &self.target_pointer_width);
        put_str(out, &self.target_c_int_width);
        put_str(out, &self.target_os);
        put_str(out, &self.target_env);
        put_str(out, &self.target_vendor);
        put_str(out, &self.arch);
        put_str(out, &self.data_layout);
        put_str(out, &self.linker_flavor);
        assert(out@ =~= start + machine_encoding(self@));
    }

    fn put_link_options(&self, out: &mut Vec<u8>)
        ensures
            final(out)@ == old(out)@ + link_encoding(self@),
    {
        let ghost start = out@;
        put_opt_str(out, &self.linker);
        put_list(out, &self.pre_link_args);
        put_bool(out, self.dynamic_linking);
        put_bool(out, self.executables);
        put_bool(out, self.position_independent_executables);
        assert(out@ =~= start + link_encoding(self@));
    }

    fn put_codegen_options(&self, out: &mut Vec<u8>)
        ensures
            final(out)@ == old(out)@ + codegen_encoding(self@),
    {
        let ghost start = out@;
        put_str(out, &self.cpu);
        put_str(out, &self.features);
        put_str(out, &self.relocation_model);
        put_opt_str(out, &self.code_model);
        put_opt_u64(out, self.max_atomic_width);
        put_bool(out, self.singlethread);
        assert(out@ =~= start + codegen_encoding(self@));
    }

    fn put_options(&self, out: &mut Vec<u8>)
        ensures
            final(out)@ == old(out)@ + options_encoding(self@),
    {
        let ghost start = out@;
        self.put_link_options(out);
        self.put_codegen_options(out);
        assert(out@ =~= start + options_encoding(self@));
    }

    fn put_encoding(&self, out: &mut Vec<u8>)
        ensures
            final(out)@ == old(out)@ + target_encoding(self@),
    {
        let ghost start = out@;
        self.put_machine(out);
        self.put_options(out);
        assert(out@ =~= start + target_encoding(self@));
    }
}

impl AcceleratorTargetDesc {
    /// The description that accelerator descriptions are based on: the host
    /// target machine, indirect calls allowed, the C calling convention, and
    /// no device features or extensions.
    pub fn for_host(target: TargetSpec) -> (r: AcceleratorTargetDesc)
        ensures
            r.allow_indirect_function_calls,
            r.kernel_abi == KernelAbi::C,
            r.features@.len() == 0,
            r.extensions@.len() == 0,
            r.target == target,
    {
        AcceleratorTargetDesc {
            allow_indirect_function_calls: true,
            kernel_abi: KernelAbi::C,
            features: Vec::new(),
            extensions: Vec::new(),
            target,
        }
    }

    pub fn allow_indirect_function_calls(&self) -> (r: bool)
        ensures
            r == self.allow_indirect_function_calls,
    {
        self.allow_indirect_function_calls
    }

    /// Overwrites `target` with this description's target machine.
    pub fn rustc_target_options(&self, target: &mut TargetSpec)
        ensures
            final(target)@ == self.target@,
            final(target).is_builtin == self.target.is_builtin,
    {
        *target = self.target.duplicate();
    }

    /// Whether the target is the SPIR-V one, `spir64-unknown-unknown`.
    pub fn is_spirv(&self) -> (r: bool)
        ensures
            r == (self.target.llvm_target@ == spirv_triple()),
    {
        let spirv = String::from_str("spir64-unknown-unknown");
        self.target.llvm_target == spirv
    }

    /// Whether the target is one that the host compiles for directly: any
    /// but SPIR-V.
    pub fn is_host(&self) -> (r: bool)
        ensures
            r == (self.target.llvm_target@ != spirv_triple()),
    {
        !self.is_spirv()
    }

    /// The canonical bytes of this description's identity.
    pub fn stable_encoding(&self) -> (r: Vec<u8>)
        ensures
            r@ == stable_encoding(self@),
    {
        let mut out: Vec<u8> = Vec::new();
        put_bool(&mut out, self.allow_indirect_function_calls);
        let code: u8 = match self.kernel_abi {
            KernelAbi::Rust => 0,
            KernelAbi::C => 1,
            KernelAbi::SpirKernel => 2,
            KernelAbi::AmdGpuKernel => 3,
            KernelAbi::PtxKernel => 4,
        };
        out.push(code);
        put_list(&mut out, &self.features);
        put_list(&mut out, &self.extensions);
        self.target.put_encoding(&mut out);
        assert(out@ =~= stable_encoding(self@));
        out
    }

    /// The fingerprint of this description's identity: the same in every run
    /// and process for descriptions of the same identity.
    pub fn get_stable_hash(&self) -> (r: u64)
        ensures
            r == stable_hash(self@),
    {
        let bytes = self.stable_encoding();
        seahash_bytes(&bytes)
    }
}

impl PartialEq for AcceleratorTargetDesc {
    fn eq(&self, o: &AcceleratorTargetDesc) -> (r: bool) {
        self.allow_indirect_function_calls == o.allow_indirect_function_calls && self.kernel_abi
            == o.kernel_abi && strs_equal(&self.features, &o.features) && strs_equal(
            &self.extensions,
            &o.extensions,
        ) && self.target.same_identity(&o.target)
    }
}

impl vstd::std_specs::cmp::PartialEqSpecImpl for AcceleratorTargetDesc {
    open spec fn obeys_eq_spec() -> bool {
        true
    }

    open spec fn eq_spec(&self, o: &AcceleratorTargetDesc) -> bool {
        self@ == o@
    }
}

impl Eq for AcceleratorTargetDesc {

}

/// Two target descriptions of the same identity have the same stable hash
/// and are equal.
pub proof fn lemma_same_identity_same_hash(a: AcceleratorTargetDesc, b: AcceleratorTargetDesc)
    requires
        a@ == b@,
    ensures
        stable_hash(a@) == stable_hash(b@),
        a.eq_spec(&b),
{
}

/// Two target descriptions that differ at most in whether their target
/// machine is a built-in one have the same stable hash and are equal.
pub proof fn lemma_builtin_marker_ignored(a: AcceleratorTargetDesc, b: AcceleratorTargetDesc)
    requires
        a.allow_indirect_function_calls == b.allow_indirect_function_calls,
        a.kernel_abi == b.kernel_abi,
        a.features == b.features,
        a.extensions == b.extensions,
        (TargetSpec { is_builtin: b.target.is_builtin, ..a.target }) == b.target,
    ensures
        stable_hash(a@) == stable_hash(b@),
        a.eq_spec(&b),
{
    assert(a@ == b@);
    lemma_same_identity_same_hash(a, b);
}

/// Any two results of `get_stable_hash` on the same description are equal.
pub proof fn lemma_stable_hash_deterministic(d: AcceleratorTargetDesc, r1: u64, r2: u64)
    requires
        call_ensures(AcceleratorTargetDesc::get_stable_hash, (&d,), r1),
        call_ensures(AcceleratorTargetDesc::get_stable_hash, (&d,), r2),
    ensures
        r1 == r2,
{
}

} // verus!
