use vstd::prelude::*;

verus! {

/// The bundle settings of one configuration layer, as declared in a package's
/// manifest metadata. Every field is optional: an empty string, an empty list
/// or `None` means "not set".
///
/// The three override tables map a format's short name, a binary's name or an
/// example's name to a further layer. They are lists of entries in which a
/// later entry for a key replaces an earlier one.
#[derive(Debug)]
pub struct BundleSettings {
    pub name: String,
    pub identifier: Option<String>,
    pub icon: Vec<String>,
    pub version: Option<String>,
    pub resources_mapping: Vec<(String, String)>,
    pub copyright: Option<String>,
    /// The application category, by the name under which it was written.
    pub category: Option<String>,
    pub short_description: Option<String>,
    pub long_description: Option<String>,
    pub linux_mime_types: Vec<String>,
    pub linux_exec_args: Option<String>,
    pub linux_use_terminal: Option<bool>,
    pub deb_depends: Vec<String>,
    pub osx_frameworks: Vec<String>,
    pub osx_plugins: Option<Vec<String>>,
    pub osx_minimum_system_version: Option<String>,
    pub osx_url_schemes: Option<Vec<String>>,
    pub osx_info_plist_exts: Option<Vec<String>>,
    pub targets: Vec<(String, BundleSettings)>,
    pub bin: Vec<(String, BundleSettings)>,
    pub example: Vec<(String, BundleSettings)>,
}

/// The plain (non-table) fields of a layer.
#[verifier::ext_equal]
pub struct SettingsFields {
    pub name: Seq<char>,
    pub identifier: Option<Seq<char>>,
    pub icon: Seq<Seq<char>>,
    pub version: Option<Seq<char>>,
    pub resources_mapping: Seq<(Seq<char>, Seq<char>)>,
    pub copyright: Option<Seq<char>>,
    pub category: Option<Seq<char>>,
    pub short_description: Option<Seq<char>>,
    pub long_description: Option<Seq<char>>,
    pub linux_mime_types: Seq<Seq<char>>,
    pub linux_exec_args: Option<Seq<char>>,
    pub linux_use_terminal: Option<bool>,
    pub deb_depends: Seq<Seq<char>>,
    pub osx_frameworks: Seq<Seq<char>>,
    pub osx_plugins: Option<Seq<Seq<char>>>,
    pub osx_minimum_system_version: Option<Seq<char>>,
    pub osx_url_schemes: Option<Seq<Seq<char>>>,
    pub osx_info_plist_exts: Option<Seq<Seq<char>>>,
}

/// A layer seen one level deep: its own fields, and the fields of each entry
/// of its override tables.
#[verifier::ext_equal]
pub struct BundleSettingsView {
    pub fields: SettingsFields,
    pub targets: Map<Seq<char>, SettingsFields>,
    pub bin: Map<Seq<char>, SettingsFields>,
    pub example: Map<Seq<char>, SettingsFields>,
}

pub open spec fn fields_of(s: BundleSettings) -> SettingsFields {
    SettingsFields {
        name: s.name@,
        identifier: s.identifier.deep_view(),
        icon: s.icon.deep_view(),
        version: s.version.deep_view(),
        resources_mapping: s.resources_mapping.deep_view(),
        copyright: s.copyright.deep_view(),
        category: s.category.deep_view(),
        short_description: s.short_description.deep_view(),
        long_description: s.long_description.deep_view(),
        linux_mime_types: s.linux_mime_types.deep_view(),
        linux_exec_args: s.linux_exec_args.deep_view(),
        linux_use_terminal: s.linux_use_terminal,
        deb_depends: s.deb_depends.deep_view(),
        osx_frameworks: s.osx_frameworks.deep_view(),
        osx_plugins: s.osx_plugins.deep_view(),
        osx_minimum_system_version: s.osx_minimum_system_version.deep_view(),
        osx_url_schemes: s.osx_url_schemes.deep_view(),
        osx_info_plist_exts: s.osx_info_plist_exts.deep_view(),
    }
}

/// The entry that an override table holds for `key`: the last one with that key.
pub open spec fn find_override(entries: Seq<(String, BundleSettings)>, key: Seq<char>) -> Option<
    BundleSettings,
>
    decreases entries.len(),
{
    if entries.len() == 0 {
        None
    } else if entries.last().0@ == key {
        Some(entries.last().1)
    } else {
        find_override(entries.drop_last(), key)
    }
}

/// An override table as a map from key to the fields of its entry.
pub open spec fn overrides_map(entries: Seq<(String, BundleSettings)>) -> Map<
    Seq<char>,
    SettingsFields,
> {
    Map::new(
        |k: Seq<char>| find_override(entries, k) is Some,
        |k: Seq<char>| fields_of(find_override(entries, k)->0),
    )
}

impl View for BundleSettings {
    type V = BundleSettingsView;

    open spec fn view(&self) -> BundleSettingsView {
        BundleSettingsView {
            fields: fields_of(*self),
            targets: overrides_map(self.targets@),
            bin: overrides_map(self.bin@),
            example: overrides_map(self.example@),
        }
    }
}

/// A layer with nothing set.
pub open spec fn empty_fields() -> SettingsFields {
    SettingsFields {
        name: Seq::empty(),
        identifier: None,
        icon: Seq::empty(),
        version: None,
        resources_mapping: Seq::empty(),
        copyright: None,
        category: None,
        short_description: None,
        long_description: None,
        linux_mime_types: Seq::empty(),
        linux_exec_args: None,
        linux_use_terminal: None,
        deb_depends: Seq::empty(),
        osx_frameworks: Seq::empty(),
        osx_plugins: None,
        osx_minimum_system_version: None,
        osx_url_schemes: None,
        osx_info_plist_exts: None,
    }
}

pub open spec fn empty_settings() -> BundleSettingsView {
    BundleSettingsView {
        fields: empty_fields(),
        targets: Map::empty(),
        bin: Map::empty(),
        example: Map::empty(),
    }
}

/// `a` if it is set, else `b`.
pub open spec fn coalesce<T>(a: Option<T>, b: Option<T>) -> Option<T> {
    if a is Some {
        a
    } else {
        b
    }
}

/// `a` if it is not empty, else `b`: lists are replaced, never concatenated.
pub open spec fn coalesce_list<T>(a: Seq<T>, b: Seq<T>) -> Seq<T> {
    if a.len() > 0 {
        a
    } else {
        b
    }
}

/// The fields of layer `a` laid over those of layer `b`.
pub open spec fn merge_fields(a: SettingsFields, b: SettingsFields) -> SettingsFields {
    SettingsFields {
        name: coalesce_list(a.name, b.name),
        identifier: coalesce(a.identifier, b.identifier),
        icon: coalesce_list(a.icon, b.icon),
        version: coalesce(a.version, b.version),
        resources_mapping: coalesce_list(a.resources_mapping, b.resources_mapping),
        copyright: coalesce(a.copyright, b.copyright),
        category: coalesce(a.category, b.category),
        short_description: coalesce(a.short_description, b.short_description),
        long_description: coalesce(a.long_description, b.long_description),
        linux_mime_types: coalesce_list(a.linux_mime_types, b.linux_mime_types),
        linux_exec_args: coalesce(a.linux_exec_args, b.linux_exec_args),
        linux_use_terminal: coalesce(a.linux_use_terminal, b.linux_use_terminal),
        deb_depends: coalesce_list(a.deb_depends, b.deb_depends),
        osx_frameworks: coalesce_list(a.osx_frameworks, b.osx_frameworks),
        osx_plugins: coalesce(a.osx_plugins, b.osx_plugins),
        osx_minimum_system_version: coalesce(
            a.osx_minimum_system_version,
            b.osx_minimum_system_version,
        ),
        osx_url_schemes: coalesce(a.osx_url_schemes, b.osx_url_schemes),
        osx_info_plist_exts: coalesce(a.osx_info_plist_exts, b.osx_info_plist_exts),
    }
}

/// Layer `a` laid over layer `b`: fields by `merge_fields`, override tables
/// united with `a`'s entry kept where both have a key.
pub open spec fn merge_settings(a: BundleSettingsView, b: BundleSettingsView) -> BundleSettingsView {
    BundleSettingsView {
        fields: merge_fields(a.fields, b.fields),
        targets: b.targets.union_prefer_right(a.targets),
        bin: b.bin.union_prefer_right(a.bin),
        example: b.example.union_prefer_right(a.example),
    }
}

fn or_option<T>(a: Option<T>, b: Option<T>) -> (r: Option<T>)
    ensures
        r == (if a is Some {
            a
        } else {
            b
        }),
{
    match a {
        Some(x) => Some(x),
        None => b,
    }
}

fn or_list<T>(a: Vec<T>, b: Vec<T>) -> (r: Vec<T>)
    ensures
        r == (if a@.len() > 0 {
            a
        } else {
            b
        }),
{
    if a.len() > 0 {
        a
    } else {
        b
    }
}

proof fn lemma_find_in_concat(
    b: Seq<(String, BundleSettings)>,
    a: Seq<(String, BundleSettings)>,
    k: Seq<char>,
)
    ensures
        find_override(b + a, k) == (if find_override(a, k) is Some {
            find_override(a, k)
        } else {
            find_override(b, k)
        }),
    decreases a.len(),
{
    if a.len() == 0 {
        assert(b + a =~= b);
    } else {
        assert((b + a).drop_last() =~= b + a.drop_last());
        assert((b + a).last() == a.last());
        lemma_find_in_concat(b, a.drop_last(), k);
    }
}

proof fn lemma_overrides_concat(b: Seq<(String, BundleSettings)>, a: Seq<(String, BundleSettings)>)
    ensures
        overrides_map(b + a) == overrides_map(b).union_prefer_right(overrides_map(a)),
{
    assert forall|k: Seq<char>| #[trigger] find_override(b + a, k) == (if find_override(a, k) is Some {
        find_override(a, k)
    } else {
        find_override(b, k)
    }) by {
        lemma_find_in_concat(b, a, k);
    }
    assert(overrides_map(b + a) =~= overrides_map(b).union_prefer_right(overrides_map(a)));
}

impl BundleSettings {
    /// Lays `self` over `other`: each field of `self` that is set wins, a
    /// list of `self` that is not empty replaces `other`'s whole, and the
    /// override tables are united, `self`'s entry winning on a shared key.
    pub fn merge(self, other: BundleSettings) -> (r: BundleSettings)
        ensures
            r@ == merge_settings(self@, other@),
    {
        let ghost a = self;
        let ghost b = other;
        let mut targets = other.targets;
        let mut own_targets = self.targets;
        targets.append(&mut own_targets);
        let mut bin = other.bin;
        let mut own_bin = self.bin;
        bin.append(&mut own_bin);
        let mut example = other.example;
        let mut own_example = self.example;
        example.append(&mut own_example);
        let name_set = !self.name.as_str().is_empty();
        let r = BundleSettings {
            name: if name_set {
                self.name
            } else {
                other.name
            },
            identifier: or_option(self.identifier, other.identifier),
            icon: or_list(self.icon, other.icon),
            version: or_option(self.version, other.version),
            resources_mapping: or_list(self.resources_mapping, other.resources_mapping),
            copyright: or_option(self.copyright, other.copyright),
            category: or_option(self.category, other.category),
            short_description: or_option(self.short_description, other.short_description),
            long_description: or_option(self.long_description, other.long_description),
            linux_mime_types: or_list(self.linux_mime_types, other.linux_mime_types),
            linux_exec_args: or_option(self.linux_exec_args, other.linux_exec_args),
            linux_use_terminal: or_option(self.linux_use_terminal, other.linux_use_terminal),
            deb_depends: or_list(self.deb_depends, other.deb_depends),
            osx_frameworks: or_list(self.osx_frameworks, other.osx_frameworks),
            osx_plugins: or_option(self.osx_plugins, other.osx_plugins),
            osx_minimum_system_version: or_option(
                self.osx_minimum_system_version,
                other.osx_minimum_system_version,
            ),
            osx_url_schemes: or_option(self.osx_url_schemes, other.osx_url_schemes),
            osx_info_plist_exts: or_option(self.osx_info_plist_exts, other.osx_info_plist_exts),
            targets,
            bin,
            example,
        };
        proof {
            lemma_overrides_concat(b.targets@, a.targets@);
            lemma_overrides_concat(b.bin@, a.bin@);
            lemma_overrides_concat(b.example@, a.example@);
            assert(fields_of(r) == merge_fields(fields_of(a), fields_of(b)));
        }
        r
    }
}

impl Default for BundleSettings {
    fn default() -> (r: BundleSettings)
        ensures
            r@ == empty_settings(),
    {
        let r = BundleSettings {
            name: String::new(),
            identifier: None,
            icon: Vec::new(),
            version: None,
            resources_mapping: Vec::new(),
            copyright: None,
            category: None,
            short_description: None,
            long_description: None,
            linux_mime_types: Vec::new(),
            linux_exec_args: None,
            linux_use_terminal: None,
            deb_depends: Vec::new(),
            osx_frameworks: Vec::new(),
            osx_plugins: None,
            osx_minimum_system_version: None,
            osx_url_schemes: None,
            osx_info_plist_exts: None,
            targets: Vec::new(),
            bin: Vec::new(),
            example: Vec::new(),
        };
        proof {
            assert(r.icon.deep_view() =~= Seq::empty());
            assert(r.resources_mapping.deep_view() =~= Seq::empty());
            assert(r.linux_mime_types.deep_view() =~= Seq::empty());
            assert(r.deb_depends.deep_view() =~= Seq::empty());
            assert(r.osx_frameworks.deep_view() =~= Seq::empty());
            assert(fields_of(r) =~= empty_fields());
            assert(overrides_map(r.targets@) =~= Map::empty());
            assert(overrides_map(r.bin@) =~= Map::empty());
            assert(overrides_map(r.example@) =~= Map::empty());
        }
        r
    }
}

fn copy_string(s: &String) -> (r: String)
    ensures
        r@ == s@,
{
    s.clone()
}

pub(crate) fn copy_strings(v: &Vec<String>) -> (r: Vec<String>)
    ensures
        r.deep_view() == v.deep_view(),
{
    let mut r: Vec<String> = Vec::new();
    let mut i: usize = 0;
    while i < v.len()
        invariant
            i <= v.len(),
            r@.len() == i,
            forall|j: int| 0 <= j < i ==> r@[j]@ == v@[j]@,
        decreases v.len() - i,
    {
        r.push(copy_string(&v[i]));
        i = i + 1;
    }
    assert(r.deep_view() =~= v.deep_view());
    r
}

pub(crate) fn copy_opt_string(o: &Option<String>) -> (r: Option<String>)
    ensures
        r.deep_view() == o.deep_view(),
{
    match o {
        Some(s) => Some(copy_string(s)),
        None => None,
    }
}

fn copy_opt_strings(o: &Option<Vec<String>>) -> (r: Option<Vec<String>>)
    ensures
        r.deep_view() == o.deep_view(),
{
    match o {
        Some(v) => Some(copy_strings(v)),
        None => None,
    }
}

fn copy_pairs(v: &Vec<(String, String)>) -> (r: Vec<(String, String)>)
    ensures
        r.deep_view() == v.deep_view(),
{
    let mut r: Vec<(String, String)> = Vec::new();
    let mut i: usize = 0;
    while i < v.len()
        invariant
            i <= v.len(),
            r@.len() == i,
            forall|j: int| 0 <= j < i ==> r@[j].0@ == v@[j].0@ && r@[j].1@ == v@[j].1@,
        decreases v.len() - i,
    {
        r.push((copy_string(&v[i].0), copy_string(&v[i].1)));
        i = i + 1;
    }
    assert(r.deep_view() =~= v.deep_view());
    r
}

proof fn lemma_tables_agree(
    r: Seq<(String, BundleSettings)>,
    t: Seq<(String, BundleSettings)>,
    k: Seq<char>,
)
    requires
        r.len() == t.len(),
        forall|j: int|
            0 <= j < r.len() ==> r[j].0@ == t[j].0@ && fields_of(r[j].1) == fields_of(t[j].1),
    ensures
        (find_override(r, k) is Some) == (find_override(t, k) is Some),
        find_override(r, k) is Some ==> fields_of(find_override(r, k)->0) == fields_of(
            find_override(t, k)->0,
        ),
    decreases r.len(),
{
    if r.len() > 0 {
        lemma_tables_agree(r.drop_last(), t.drop_last(), k);
    }
}

/// A layer that sets the fields `f` and has empty override tables.
pub open spec fn only_fields(f: SettingsFields) -> BundleSettingsView {
    BundleSettingsView { fields: f, targets: Map::empty(), bin: Map::empty(), example: Map::empty() }
}

/// The fields `f` of an override entry laid over the layer `base`; `base`'s
/// override tables are kept as they are.
pub open spec fn layered(f: SettingsFields, base: BundleSettingsView) -> BundleSettingsView {
    merge_settings(only_fields(f), base)
}

impl BundleSettings {
    /// A copy of the plain fields, with empty override tables.
    pub fn copy_fields(&self) -> (r: BundleSettings)
        ensures
            r@ == only_fields(fields_of(*self)),
    {
        let r = BundleSettings {
            name: copy_string(&self.name),
            identifier: copy_opt_string(&self.identifier),
            icon: copy_strings(&self.icon),
            version: copy_opt_string(&self.version),
            resources_mapping: copy_pairs(&self.resources_mapping),
            copyright: copy_opt_string(&self.copyright),
            category: copy_opt_string(&self.category),
            short_description: copy_opt_string(&self.short_description),
            long_description: copy_opt_string(&self.long_description),
            linux_mime_types: copy_strings(&self.linux_mime_types),
            linux_exec_args: copy_opt_string(&self.linux_exec_args),
            linux_use_terminal: self.linux_use_terminal,
            deb_depends: copy_strings(&self.deb_depends),
            osx_frameworks: copy_strings(&self.osx_frameworks),
            osx_plugins: copy_opt_strings(&self.osx_plugins),
            osx_minimum_system_version: copy_opt_string(&self.osx_minimum_system_version),
            osx_url_schemes: copy_opt_strings(&self.osx_url_schemes),
            osx_info_plist_exts: copy_opt_strings(&self.osx_info_plist_exts),
            targets: Vec::new(),
            bin: Vec::new(),
            example: Vec::new(),
        };
        proof {
            assert(overrides_map(r.targets@) =~= Map::empty());
            assert(overrides_map(r.bin@) =~= Map::empty());
            assert(overrides_map(r.example@) =~= Map::empty());
        }
        r
    }

    /// A copy of this layer and of its override tables; entries of the tables
    /// are copied one level deep.
    pub fn duplicate(&self) -> (r: BundleSettings)
        ensures
            r@ == self@,
    {
        let mut r = self.copy_fields();
        r.targets = copy_table(&self.targets);
        r.bin = copy_table(&self.bin);
        r.example = copy_table(&self.example);
        r
    }
}

fn copy_table(t: &Vec<(String, BundleSettings)>) -> (r: Vec<(String, BundleSettings)>)
    ensures
        overrides_map(r@) == overrides_map(t@),
{
    let mut r: Vec<(String, BundleSettings)> = Vec::new();
    let mut i: usize = 0;
    while i < t.len()
        invariant
            i <= t.len(),
            r@.len() == i,
            forall|j: int|
                0 <= j < i ==> r@[j].0@ == t@[j].0@ && fields_of(r@[j].1) == fields_of(t@[j].1),
        decreases t.len() - i,
    {
        let entry = t[i].1.copy_fields();
        r.push((copy_string(&t[i].0), entry));
        i = i + 1;
    }
    proof {
        assert forall|k: Seq<char>|
            #![trigger find_override(r@, k)]
            (find_override(r@, k) is Some) == (find_override(t@, k) is Some) && (find_override(
                r@,
                k,
            ) is Some ==> fields_of(find_override(r@, k)->0) == fields_of(
                find_override(t@, k)->0,
            )) by {
            lemma_tables_agree(r@, t@, k);
        }
        assert(overrides_map(r@) =~= overrides_map(t@));
    }
    r
}

/// Finds the entry of an override table for `key`: the position of the last
/// entry with that key.
pub fn find_entry(entries: &Vec<(String, BundleSettings)>, key: &str) -> (r: Option<usize>)
    ensures
        r is Some <==> find_override(entries@, key@) is Some,
        r matches Some(i) ==> i < entries@.len() && find_override(entries@, key@) == Some(
            entries@[i as int].1,
        ),
{
    let mut i: usize = entries.len();
    assert(entries@.take(i as int) =~= entries@);
    while i > 0
        invariant
            i <= entries@.len(),
            find_override(entries@, key@) == find_override(entries@.take(i as int), key@),
        decreases i,
    {
        proof {
            assert(entries@.take(i as int).drop_last() =~= entries@.take(i - 1));
        }
        if crate::text::str_eq(entries[i - 1].0.as_str(), key) {
            return Some(i - 1);
        }
        i = i - 1;
    }
    None
}

/// Merging with a layer that sets nothing, on either side, changes nothing.
pub proof fn lemma_merge_identity(x: BundleSettings)
    ensures
        merge_settings(x@, empty_settings()) == x@,
        merge_settings(empty_settings(), x@) == x@,
{
    let f = x@.fields;
    assert(f.name.len() == 0 ==> f.name =~= Seq::empty());
    assert(f.icon.len() == 0 ==> f.icon =~= Seq::empty());
    assert(f.resources_mapping.len() == 0 ==> f.resources_mapping =~= Seq::empty());
    assert(f.linux_mime_types.len() == 0 ==> f.linux_mime_types =~= Seq::empty());
    assert(f.deb_depends.len() == 0 ==> f.deb_depends =~= Seq::empty());
    assert(f.osx_frameworks.len() == 0 ==> f.osx_frameworks =~= Seq::empty());
    assert(merge_fields(x@.fields, empty_fields()) =~= x@.fields);
    assert(merge_fields(empty_fields(), x@.fields) =~= x@.fields);
    assert(Map::<Seq<char>, SettingsFields>::empty().union_prefer_right(x@.targets) =~= x@.targets);
    assert(Map::<Seq<char>, SettingsFields>::empty().union_prefer_right(x@.bin) =~= x@.bin);
    assert(Map::<Seq<char>, SettingsFields>::empty().union_prefer_right(x@.example) =~= x@.example);
    assert(x@.targets.union_prefer_right(Map::empty()) =~= x@.targets);
    assert(x@.bin.union_prefer_right(Map::empty()) =~= x@.bin);
    assert(x@.example.union_prefer_right(Map::empty()) =~= x@.example);
}

/// `r` takes `a` where `a` is set and `b` where it is not.
pub open spec fn takes_set_value<T>(a: Option<T>, b: Option<T>, r: Option<T>) -> bool {
    &&& a is Some ==> r == a
    &&& a is None ==> r == b
}

/// For every plain field, the value of the higher layer `a` wins where it is
/// set, and the value of the lower layer `b` survives unchanged where `a`
/// leaves the field unset.
pub proof fn lemma_merge_precedence(a: BundleSettings, b: BundleSettings)
    ensures
        ({
            let r = merge_settings(a@, b@).fields;
            let (fa, fb) = (a@.fields, b@.fields);
            &&& fa.name.len() > 0 ==> r.name == fa.name
            &&& fa.name.len() == 0 ==> r.name == fb.name
            &&& takes_set_value(fa.identifier, fb.identifier, r.identifier)
            &&& takes_set_value(fa.version, fb.version, r.version)
            &&& takes_set_value(fa.copyright, fb.copyright, r.copyright)
            &&& takes_set_value(fa.category, fb.category, r.category)
            &&& takes_set_value(fa.short_description, fb.short_description, r.short_description)
            &&& takes_set_value(fa.long_description, fb.long_description, r.long_description)
            &&& takes_set_value(fa.linux_exec_args, fb.linux_exec_args, r.linux_exec_args)
            &&& takes_set_value(fa.linux_use_terminal, fb.linux_use_terminal, r.linux_use_terminal)
            &&& takes_set_value(fa.osx_plugins, fb.osx_plugins, r.osx_plugins)
            &&& takes_set_value(
                fa.osx_minimum_system_version,
                fb.osx_minimum_system_version,
                r.osx_minimum_system_version,
            )
            &&& takes_set_value(fa.osx_url_schemes, fb.osx_url_schemes, r.osx_url_schemes)
            &&& takes_set_value(fa.osx_info_plist_exts, fb.osx_info_plist_exts, r.osx_info_plist_exts)
        }),
{
}

/// A list of the higher layer that is not empty replaces the lower layer's
/// list whole: the lists are never united or concatenated.
pub proof fn lemma_merge_lists_override(a: BundleSettings, b: BundleSettings)
    ensures
        ({
            let r = merge_settings(a@, b@).fields;
            let (fa, fb) = (a@.fields, b@.fields);
            &&& fa.resources_mapping.len() > 0 ==> r.resources_mapping == fa.resources_mapping
            &&& fa.icon.len() > 0 ==> r.icon == fa.icon
            &&& fa.linux_mime_types.len() > 0 ==> r.linux_mime_types == fa.linux_mime_types
            &&& fa.deb_depends.len() > 0 ==> r.deb_depends == fa.deb_depends
            &&& fa.osx_frameworks.len() > 0 ==> r.osx_frameworks == fa.osx_frameworks
            &&& fa.resources_mapping.len() == 0 ==> r.resources_mapping == fb.resources_mapping
            &&& fa.icon.len() == 0 ==> r.icon == fb.icon
            &&& fa.linux_mime_types.len() == 0 ==> r.linux_mime_types == fb.linux_mime_types
            &&& fa.deb_depends.len() == 0 ==> r.deb_depends == fb.deb_depends
            &&& fa.osx_frameworks.len() == 0 ==> r.osx_frameworks == fb.osx_frameworks
        }),
{
}

/// The override tables of a merge hold every key of either layer; where both
/// layers have an entry for a key, the higher layer's entry is kept.
pub proof fn lemma_merge_tables_union(a: BundleSettings, b: BundleSettings, k: Seq<char>)
    ensures
        ({
            let r = merge_settings(a@, b@);
            &&& r.bin.contains_key(k) <==> a@.bin.contains_key(k) || b@.bin.contains_key(k)
            &&& a@.bin.contains_key(k) ==> r.bin[k] == a@.bin[k]
            &&& !a@.bin.contains_key(k) && b@.bin.contains_key(k) ==> r.bin[k] == b@.bin[k]
            &&& r.example.contains_key(k) <==> a@.example.contains_key(k) || b@.example.contains_key(k)
            &&& a@.example.contains_key(k) ==> r.example[k] == a@.example[k]
            &&& !a@.example.contains_key(k) && b@.example.contains_key(k) ==> r.example[k]
                == b@.example[k]
            &&& r.targets.contains_key(k) <==> a@.targets.contains_key(k) || b@.targets.contains_key(k)
            &&& a@.targets.contains_key(k) ==> r.targets[k] == a@.targets[k]
            &&& !a@.targets.contains_key(k) && b@.targets.contains_key(k) ==> r.targets[k]
                == b@.targets[k]
        }),
{
}

} // verus!
