//! The model manager: the embedded catalog, the installed list derived
//! from a directory scan, the download plan and its checksum gate, and
//! deletion. All filesystem and network work happens outside; it hands
//! this module file names, sizes and digests as plain values.

use vstd::prelude::*;

use crate::errors::DomainError;
use crate::model::{
    spec_find_model, spec_find_variant, spec_from_suffix, spec_suffix, InstalledModel,
    ModelCatalog, ModelInfo, Quantization,
};
use crate::text::str_eq;

verus! {

use vstd::string::StrSliceExecFns;
use vstd::string::StringExecFns;

/// The fields of an installed model, as mathematical values.
pub struct InstalledModelView {
    pub id: Seq<char>,
    pub quantization: Quantization,
    pub path: Seq<char>,
    pub sha256: Seq<char>,
    pub size_bytes: u64,
}

impl View for InstalledModel {
    type V = InstalledModelView;

    open spec fn view(&self) -> InstalledModelView {
        InstalledModelView {
            id: self.id@,
            quantization: self.quantization,
            path: self.path@,
            sha256: self.sha256@,
            size_bytes: self.size_bytes,
        }
    }
}

/// The file name an installed model variant carries:
/// `{id}-{suffix}.bin`.
pub open spec fn spec_model_file_name(id: Seq<char>, quant: Quantization) -> Seq<char> {
    id + "-"@ + spec_suffix(quant) + ".bin"@
}

/// The path of a model file in the models directory.
pub open spec fn spec_model_path(dir: Seq<char>, id: Seq<char>, quant: Quantization) -> Seq<char> {
    dir + "/"@ + spec_model_file_name(id, quant)
}

/// The temporary path a download is streamed to before the atomic
/// rename: the final path with its `bin` extension replaced by
/// `download`.
pub open spec fn spec_temp_path(dir: Seq<char>, id: Seq<char>, quant: Quantization) -> Seq<char> {
    dir + "/"@ + id + "-"@ + spec_suffix(quant) + ".download"@
}

/// The index of the last `-` in a string, if any.
pub open spec fn spec_rfind_dash(s: Seq<char>) -> Option<int>
    decreases s.len(),
{
    if s.len() == 0 {
        None
    } else if s.last() == '-' {
        Some(s.len() - 1)
    } else {
        spec_rfind_dash(s.drop_last())
    }
}

/// What a file in the models directory denotes: a file named
/// `{id}-{suffix}.bin` whose id is in the catalog and whose suffix names
/// a variant of it is that installed variant (its expected checksum is
/// the catalog's); any other file denotes nothing and is ignored.
pub open spec fn spec_parse_model_file(
    models: Seq<ModelInfo>,
    dir: Seq<char>,
    filename: Seq<char>,
    size: u64,
) -> Option<InstalledModelView> {
    if filename.len() < 4 || filename.subrange(filename.len() - 4, filename.len() as int)
        != ".bin"@ {
        None
    } else {
        let stem = filename.take(filename.len() - 4);
        match spec_rfind_dash(stem) {
            None => None,
            Some(k) => {
                let id = stem.take(k);
                let quant_str = stem.skip(k + 1);
                match spec_from_suffix(quant_str) {
                    None => None,
                    Some(quant) => match spec_find_model(models, id) {
                        None => None,
                        Some(model) => match spec_find_variant(model.variants@, quant) {
                            None => None,
                            Some(variant) => Some(
                                InstalledModelView {
                                    id,
                                    quantization: quant,
                                    path: dir + "/"@ + filename,
                                    sha256: variant.sha256@,
                                    size_bytes: size,
                                },
                            ),
                        },
                    },
                }
            },
        }
    }
}

/// The installed list a directory scan produces: the parses of the files
/// that denote installed variants, in directory order.
pub open spec fn spec_scan(
    models: Seq<ModelInfo>,
    dir: Seq<char>,
    files: Seq<(String, u64)>,
) -> Seq<InstalledModelView>
    decreases files.len(),
{
    if files.len() == 0 {
        Seq::empty()
    } else {
        let rest = spec_scan(models, dir, files.drop_last());
        match spec_parse_model_file(models, dir, files.last().0@, files.last().1) {
            Some(m) => rest.push(m),
            None => rest,
        }
    }
}

/// Whether the catalog holds the given model with a variant of the
/// given quantization.
pub open spec fn spec_has_variant(models: Seq<ModelInfo>, id: Seq<char>, quant: Quantization) -> bool {
    spec_find_model(models, id) matches Some(m) && spec_find_variant(m.variants@, quant) is Some
}

/// The first installed entry for a model id and quantization, if any.
pub open spec fn spec_find_installed(
    installed: Seq<InstalledModelView>,
    id: Seq<char>,
    quant: Quantization,
) -> Option<InstalledModelView>
    decreases installed.len(),
{
    if installed.len() == 0 {
        None
    } else if installed[0].id == id && installed[0].quantization == quant {
        Some(installed[0])
    } else {
        spec_find_installed(installed.drop_first(), id, quant)
    }
}

/// Everything the host needs to perform one model download: where to
/// fetch, where to stream, and what the result must hash to.
#[derive(Debug, Clone)]
pub struct DownloadPlan {
    /// The URL to fetch.
    pub url: String,
    /// The final path of the model file.
    pub target_path: String,
    /// The temporary path the body is streamed to before the atomic
    /// rename to the final path.
    pub temp_path: String,
    /// The SHA-256 checksum (lowercase hex) the downloaded file must
    /// have.
    pub expected_sha256: String,
    /// The expected size in bytes.
    pub total_bytes: u64,
}

/// Local model manager: the catalog, the models directory and the
/// installed list reconstructed from directory scans.
pub struct LocalModelManager {
    catalog: ModelCatalog,
    models_dir: String,
    installed: Vec<InstalledModel>,
}

impl LocalModelManager {
    /// The catalog the manager was created with.
    pub closed spec fn spec_catalog(&self) -> ModelCatalog {
        self.catalog
    }

    /// The models directory path.
    pub closed spec fn spec_models_dir(&self) -> Seq<char> {
        self.models_dir@
    }

    /// The installed entries, as values.
    pub closed spec fn spec_installed(&self) -> Seq<InstalledModelView> {
        Seq::new(self.installed@.len(), |i: int| self.installed@[i]@)
    }

    /// A manager over the given catalog and models directory, with no
    /// installed entries until a scan fills them in.
    pub fn new(catalog: ModelCatalog, models_dir: String) -> (r: LocalModelManager)
        ensures
            r.spec_catalog() == catalog,
            r.spec_models_dir() == models_dir@,
            r.spec_installed() == Seq::<InstalledModelView>::empty(),
    {
        let r = LocalModelManager { catalog, models_dir, installed: Vec::new() };
        proof {
            assert(r.spec_installed() =~= Seq::<InstalledModelView>::empty());
        }
        r
    }

    /// The catalog.
    pub fn catalog(&self) -> (r: &ModelCatalog)
        ensures
            *r == self.spec_catalog(),
    {
        &self.catalog
    }

    /// The models directory path.
    pub fn models_dir(&self) -> (r: String)
        ensures
            r@ == self.spec_models_dir(),
    {
        self.models_dir.clone()
    }

    /// The file name of a model variant: `{id}-{suffix}.bin`.
    pub fn model_file_name(id: &str, quant: Quantization) -> (r: String)
        ensures
            r@ == spec_model_file_name(id@, quant),
    {
        let mut out = String::from_str(id);
        out.append("-");
        out.append(quant.suffix());
        out.append(".bin");
        out
    }

    /// The path a model variant is installed at.
    pub fn get_model_path(&self, id: &str, quant: Quantization) -> (r: String)
        ensures
            r@ == spec_model_path(self.spec_models_dir(), id@, quant),
    {
        let mut out = self.models_dir.clone();
        out.append("/");
        out.append(Self::model_file_name(id, quant).as_str());
        out
    }

    /// Parse one directory entry. A file that does not decompose as
    /// `{id}-{suffix}.bin`, or whose id or suffix is not in the catalog,
    /// is ignored (it may be unrelated user data).
    pub fn parse_model_file(&self, filename: &str, size: u64) -> (r: Option<InstalledModel>)
        ensures
            match r {
                Some(m) => spec_parse_model_file(
                    self.spec_catalog().models@,
                    self.spec_models_dir(),
                    filename@,
                    size,
                ) == Some(m@),
                None => spec_parse_model_file(
                    self.spec_catalog().models@,
                    self.spec_models_dir(),
                    filename@,
                    size,
                ) is None,
            },
    {
        let n = filename.unicode_len();
        if n < 4 {
            return None;
        }
        proof {
            reveal_strlit(".bin");
        }
        let tail_ok = filename.get_char(n - 4) == '.' && filename.get_char(n - 3) == 'b'
            && filename.get_char(n - 2) == 'i' && filename.get_char(n - 1) == 'n';
        proof {
            let tail = filename@.subrange(n - 4, n as int);
            if tail_ok {
                assert(tail =~= ".bin"@);
            } else {
                assert(tail != ".bin"@) by {
                    if tail == ".bin"@ {
                        assert(filename@[n - 4] == tail[0]);
                        assert(filename@[n - 3] == tail[1]);
                        assert(filename@[n - 2] == tail[2]);
                        assert(filename@[n - 1] == tail[3]);
                    }
                }
            }
        }
        if !tail_ok {
            return None;
        }
        let stem_len = n - 4;
        let ghost stem = filename@.take(stem_len as int);
        let mut k_opt: Option<usize> = None;
        let mut j: usize = 0;
        proof {
            assert(stem.take(0) =~= Seq::<char>::empty());
        }
        while j < stem_len
            invariant
                j <= stem_len,
                stem_len == n - 4,
                n == filename@.len(),
                stem == filename@.take(stem_len as int),
                match k_opt {
                    Some(k) => spec_rfind_dash(stem.take(j as int)) == Some(k as int) && k < j,
                    None => spec_rfind_dash(stem.take(j as int)) is None,
                },
            decreases stem_len - j,
        {
            proof {
                assert(stem.take(j + 1).drop_last() == stem.take(j as int));
                assert(stem.take(j + 1).last() == filename@[j as int]);
            }
            if filename.get_char(j) == '-' {
                k_opt = Some(j);
            }
            j = j + 1;
        }
        proof {
            assert(stem.take(stem_len as int) == stem);
        }
        let k = match k_opt {
            None => {
                return None;
            },
            Some(k) => k,
        };
        let id_part = filename.substring_char(0, k);
        let quant_part = filename.substring_char(k + 1, stem_len);
        proof {
            assert(id_part@ =~= stem.take(k as int));
            assert(quant_part@ =~= stem.skip(k + 1));
        }
        let quant = match Quantization::from_suffix(quant_part) {
            None => {
                return None;
            },
            Some(q) => q,
        };
        let model = match self.catalog.get(id_part) {
            None => {
                return None;
            },
            Some(m) => m,
        };
        let variant = match model.variant(quant) {
            None => {
                return None;
            },
            Some(v) => v,
        };
        let mut path = self.models_dir.clone();
        path.append("/");
        path.append(filename);
        Some(
            InstalledModel {
                id: String::from_str(id_part),
                quantization: quant,
                path,
                sha256: variant.sha256.clone(),
                size_bytes: size,
            },
        )
    }

    /// Rebuild the installed list from a directory listing of
    /// `(file name, size)` pairs: exactly the files that parse as
    /// installed variants, in listing order.
    pub fn scan_installed(&mut self, files: &Vec<(String, u64)>)
        ensures
            final(self).spec_catalog() == old(self).spec_catalog(),
            final(self).spec_models_dir() == old(self).spec_models_dir(),
            final(self).spec_installed() == spec_scan(
                old(self).spec_catalog().models@,
                old(self).spec_models_dir(),
                files@,
            ),
    {
        let ghost models = self.spec_catalog().models@;
        let ghost dir = self.spec_models_dir();
        let mut fresh: Vec<InstalledModel> = Vec::new();
        let mut i: usize = 0;
        proof {
            assert(files@.take(0) =~= Seq::<(String, u64)>::empty());
            assert(Seq::new(fresh@.len(), |t: int| fresh@[t]@) =~= Seq::<
                InstalledModelView,
            >::empty());
        }
        while i < files.len()
            invariant
                i <= files@.len(),
                models == self.spec_catalog().models@,
                dir == self.spec_models_dir(),
                Seq::new(fresh@.len(), |t: int| fresh@[t]@) == spec_scan(
                    models,
                    dir,
                    files@.take(i as int),
                ),
            decreases files@.len() - i,
        {
            proof {
                assert(files@.take(i + 1).drop_last() == files@.take(i as int));
                assert(files@.take(i + 1).last() == files@[i as int]);
            }
            let entry = &files[i];
            match self.parse_model_file(entry.0.as_str(), entry.1) {
                Some(m) => {
                    fresh.push(m);
                    proof {
                        assert(Seq::new(fresh@.len(), |t: int| fresh@[t]@) =~= spec_scan(
                            models,
                            dir,
                            files@.take(i + 1),
                        ));
                    }
                },
                None => {
                    proof {
                        assert(Seq::new(fresh@.len(), |t: int| fresh@[t]@) =~= spec_scan(
                            models,
                            dir,
                            files@.take(i + 1),
                        ));
                    }
                },
            }
            i = i + 1;
        }
        proof {
            assert(files@.take(files@.len() as int) == files@);
        }
        self.installed = fresh;
    }

    /// The installed models, in scan order.
    pub fn list_installed(&self) -> (r: Vec<InstalledModel>)
        ensures
            Seq::new(r@.len(), |i: int| r@[i]@) == self.spec_installed(),
    {
        let mut out: Vec<InstalledModel> = Vec::new();
        let mut i: usize = 0;
        while i < self.installed.len()
            invariant
                i <= self.installed@.len(),
                out@.len() == i,
                forall|t: int| 0 <= t < i ==> (#[trigger] out@[t])@ == self.installed@[t]@,
            decreases self.installed@.len() - i,
        {
            let m = &self.installed[i];
            out.push(
                InstalledModel {
                    id: m.id.clone(),
                    quantization: m.quantization,
                    path: m.path.clone(),
                    sha256: m.sha256.clone(),
                    size_bytes: m.size_bytes,
                },
            );
            i = i + 1;
        }
        proof {
            assert(Seq::new(out@.len(), |i: int| out@[i]@) =~= self.spec_installed());
        }
        out
    }

    /// Whether a model variant is installed.
    pub fn is_installed(&self, model_id: &str, quant: Quantization) -> (r: bool)
        ensures
            r == spec_find_installed(self.spec_installed(), model_id@, quant) is Some,
    {
        self.find_installed_index(model_id, quant).is_some()
    }

    /// The index of the first installed entry of a variant, if any.
    fn find_installed_index(&self, model_id: &str, quant: Quantization) -> (r: Option<usize>)
        ensures
            match r {
                Some(i) => i < self.installed@.len() && spec_find_installed(
                    self.spec_installed(),
                    model_id@,
                    quant,
                ) == Some(self.installed@[i as int]@),
                None => spec_find_installed(self.spec_installed(), model_id@, quant) is None,
            },
    {
        let ghost views = self.spec_installed();
        proof {
            assert(views.skip(0) =~= views);
        }
        let mut i: usize = 0;
        while i < self.installed.len()
            invariant
                i <= self.installed@.len(),
                views == self.spec_installed(),
                spec_find_installed(views, model_id@, quant) == spec_find_installed(
                    views.skip(i as int),
                    model_id@,
                    quant,
                ),
            decreases self.installed@.len() - i,
        {
            proof {
                assert(views.skip(i as int).drop_first() =~= views.skip(i + 1));
                assert(views.skip(i as int)[0] == views[i as int]);
            }
            let m = &self.installed[i];
            if str_eq(m.id.as_str(), model_id) && m.quantization == quant {
                return Some(i);
            }
            i = i + 1;
        }
        None
    }

    /// The path of an installed model variant, or `None` if it is not
    /// installed.
    pub fn model_path(&self, model_id: &str, quant: Quantization) -> (r: Option<String>)
        ensures
            match r {
                Some(p) => spec_find_installed(self.spec_installed(), model_id@, quant) matches Some(
                    m,
                ) && p@ == m.path,
                None => spec_find_installed(self.spec_installed(), model_id@, quant) is None,
            },
    {
        match self.find_installed_index(model_id, quant) {
            Some(i) => Some(self.installed[i].path.clone()),
            None => None,
        }
    }

    /// Plan a model download: look the variant up in the catalog and name
    /// the URL, the final and temporary paths and the expected checksum.
    /// Fails with `ModelNotFound` when the catalog has no such model or
    /// variant.
    pub fn plan_download(&self, model_id: &str, quant: Quantization) -> (r: Result<
        DownloadPlan,
        DomainError,
    >)
        ensures
            r is Ok <==> spec_has_variant(self.spec_catalog().models@, model_id@, quant),
            r matches Err(e) ==> e is ModelNotFound,
            r matches Ok(plan) ==> {
                let model = spec_find_model(self.spec_catalog().models@, model_id@)->Some_0;
                let variant = spec_find_variant(model.variants@, quant)->Some_0;
                &&& plan.url@ == variant.url@
                &&& plan.target_path@ == spec_model_path(self.spec_models_dir(), model_id@, quant)
                &&& plan.temp_path@ == spec_temp_path(self.spec_models_dir(), model_id@, quant)
                &&& plan.expected_sha256@ == variant.sha256@
                &&& plan.total_bytes == variant.size_bytes
            },
    {
        let model = match self.catalog.get(model_id) {
            None => {
                return Err(DomainError::ModelNotFound(String::from_str(model_id)));
            },
            Some(m) => m,
        };
        let variant = match model.variant(quant) {
            None => {
                let mut msg = String::from_str(model_id);
                msg.append(" has no ");
                msg.append(quant.suffix());
                msg.append(" variant");
                return Err(DomainError::ModelNotFound(msg));
            },
            Some(v) => v,
        };
        let target_path = self.get_model_path(model_id, quant);
        let mut temp_path = self.models_dir.clone();
        temp_path.append("/");
        temp_path.append(model_id);
        temp_path.append("-");
        temp_path.append(quant.suffix());
        temp_path.append(".download");
        Ok(
            DownloadPlan {
                url: variant.url.clone(),
                target_path,
                temp_path,
                expected_sha256: variant.sha256.clone(),
                total_bytes: variant.size_bytes,
            },
        )
    }

    /// The checksum gate after a download: the file the host placed at
    /// the final path hashed to `actual_sha256_hex`. When it equals the
    /// catalog checksum the variant is recorded as installed and
    /// returned; when it differs the result is `ModelVerification` and
    /// nothing is recorded - the host must delete the corrupted file, so
    /// that a file stays at the final path exactly when its checksum is
    /// the catalog's.
    pub fn finish_download(
        &mut self,
        model_id: &str,
        quant: Quantization,
        actual_sha256_hex: &str,
        size: u64,
    ) -> (r: Result<InstalledModel, DomainError>)
        ensures
            final(self).spec_catalog() == old(self).spec_catalog(),
            final(self).spec_models_dir() == old(self).spec_models_dir(),
            spec_has_variant(old(self).spec_catalog().models@, model_id@, quant) ==> {
                let model = spec_find_model(old(self).spec_catalog().models@, model_id@)->Some_0;
                let v = spec_find_variant(model.variants@, quant)->Some_0;
                &&& (r is Ok <==> actual_sha256_hex@ == v.sha256@)
                &&& (actual_sha256_hex@ != v.sha256@ ==> final(self).spec_installed() == old(
                    self,
                ).spec_installed() && (r matches Err(DomainError::ModelVerification {
                    expected,
                    actual,
                }) && expected@ == v.sha256@ && actual@ == actual_sha256_hex@))
                &&& (r matches Ok(installed) ==> {
                    &&& installed@.id == model_id@
                    &&& installed@.quantization == quant
                    &&& installed@.path == spec_model_path(
                        old(self).spec_models_dir(),
                        model_id@,
                        quant,
                    )
                    &&& installed@.sha256 == v.sha256@
                    &&& installed@.size_bytes == size
                    &&& final(self).spec_installed() == old(self).spec_installed().push(installed@)
                })
            },
            !spec_has_variant(old(self).spec_catalog().models@, model_id@, quant) ==> (r matches Err(
                e,
            ) && e is ModelNotFound && final(self).spec_installed() == old(
                self,
            ).spec_installed()),
    {
        let ghost old_installed = self.spec_installed();
        let expected: String = match self.catalog.get(model_id) {
            None => {
                return Err(DomainError::ModelNotFound(String::from_str(model_id)));
            },
            Some(m) => {
                match m.variant(quant) {
                    None => {
                        let mut msg = String::from_str(model_id);
                        msg.append(" has no ");
                        msg.append(quant.suffix());
                        msg.append(" variant");
                        return Err(DomainError::ModelNotFound(msg));
                    },
                    Some(v) => v.sha256.clone(),
                }
            },
        };
        if !str_eq(actual_sha256_hex, expected.as_str()) {
            return Err(
                DomainError::ModelVerification {
                    expected,
                    actual: String::from_str(actual_sha256_hex),
                },
            );
        }
        let installed = InstalledModel {
            id: String::from_str(model_id),
            quantization: quant,
            path: self.get_model_path(model_id, quant),
            sha256: expected,
            size_bytes: size,
        };
        let result = InstalledModel {
            id: installed.id.clone(),
            quantization: installed.quantization,
            path: installed.path.clone(),
            sha256: installed.sha256.clone(),
            size_bytes: installed.size_bytes,
        };
        self.installed.push(installed);
        proof {
            assert(self.spec_installed() =~= old_installed.push(result@));
        }
        Ok(result)
    }

    /// Re-check an installed model against its catalog checksum: the
    /// host re-hashes the file and hands in the hex digest. Reports the
    /// comparison without changing any state; `ModelNotFound` when the
    /// variant is not installed or not in the catalog.
    pub fn verify(&self, model_id: &str, quant: Quantization, actual_sha256_hex: &str) -> (r:
        Result<bool, DomainError>)
        ensures
            r is Ok <==> (spec_find_installed(self.spec_installed(), model_id@, quant) is Some
                && spec_has_variant(self.spec_catalog().models@, model_id@, quant)),
            r matches Err(e) ==> e is ModelNotFound,
            r matches Ok(valid) ==> {
                let model = spec_find_model(self.spec_catalog().models@, model_id@)->Some_0;
                let variant = spec_find_variant(model.variants@, quant)->Some_0;
                valid == (actual_sha256_hex@ == variant.sha256@)
            },
    {
        if self.find_installed_index(model_id, quant).is_none() {
            let mut msg = String::from_str(model_id);
            msg.append("-");
            msg.append(quant.suffix());
            return Err(DomainError::ModelNotFound(msg));
        }
        let model = match self.catalog.get(model_id) {
            None => {
                return Err(DomainError::ModelNotFound(String::from_str(model_id)));
            },
            Some(m) => m,
        };
        let variant = match model.variant(quant) {
            None => {
                let mut msg = String::from_str(model_id);
                msg.append(" has no ");
                msg.append(quant.suffix());
                msg.append(" variant");
                return Err(DomainError::ModelNotFound(msg));
            },
            Some(v) => v,
        };
        Ok(str_eq(actual_sha256_hex, variant.sha256.as_str()))
    }

    /// Forget every installed entry of a variant and hand back the path
    /// of its file for the host to remove. `ModelNotFound` when nothing
    /// of that variant is installed.
    pub fn delete(&mut self, model_id: &str, quant: Quantization) -> (r: Result<
        String,
        DomainError,
    >)
        ensures
            final(self).spec_catalog() == old(self).spec_catalog(),
            final(self).spec_models_dir() == old(self).spec_models_dir(),
            r is Ok <==> spec_find_installed(old(self).spec_installed(), model_id@, quant) is Some,
            r matches Err(e) ==> e is ModelNotFound && final(self).spec_installed() == old(
                self,
            ).spec_installed(),
            r matches Ok(path) ==> {
                &&& path@ == spec_find_installed(
                    old(self).spec_installed(),
                    model_id@,
                    quant,
                )->Some_0.path
                &&& final(self).spec_installed() == old(self).spec_installed().filter(
                    |m: InstalledModelView| !(m.id == model_id@ && m.quantization == quant),
                )
            },
    {
        let path = match self.model_path(model_id, quant) {
            None => {
                let mut msg = String::from_str(model_id);
                msg.append("-");
                msg.append(quant.suffix());
                return Err(DomainError::ModelNotFound(msg));
            },
            Some(p) => p,
        };
        let ghost old_views = self.spec_installed();
        let ghost keep = |m: InstalledModelView| !(m.id == model_id@ && m.quantization == quant);
        let mut kept: Vec<InstalledModel> = Vec::new();
        let mut i: usize = 0;
        proof {
            assert(old_views.take(0).filter(keep) =~= Seq::<InstalledModelView>::empty());
            assert(Seq::new(kept@.len(), |t: int| kept@[t]@) =~= Seq::<
                InstalledModelView,
            >::empty());
        }
        while i < self.installed.len()
            invariant
                i <= self.installed@.len(),
                old_views == self.spec_installed(),
                keep == (|m: InstalledModelView| !(m.id == model_id@ && m.quantization == quant)),
                Seq::new(kept@.len(), |t: int| kept@[t]@) == old_views.take(i as int).filter(keep),
            decreases self.installed@.len() - i,
        {
            proof {
                assert(old_views.take(i + 1).drop_last() == old_views.take(i as int));
                assert(old_views.take(i + 1).last() == old_views[i as int]);
                reveal(Seq::filter);
            }
            let m = &self.installed[i];
            if !(str_eq(m.id.as_str(), model_id) && m.quantization == quant) {
                kept.push(
                    InstalledModel {
                        id: m.id.clone(),
                        quantization: m.quantization,
                        path: m.path.clone(),
                        sha256: m.sha256.clone(),
                        size_bytes: m.size_bytes,
                    },
                );
            }
            proof {
                assert(Seq::new(kept@.len(), |t: int| kept@[t]@) =~= old_views.take(i + 1).filter(
                    keep,
                ));
            }
            i = i + 1;
        }
        proof {
            assert(old_views.take(old_views.len() as int) == old_views);
        }
        self.installed = kept;
        Ok(path)
    }
}

/// Appending dash-free text does not move the last dash.
proof fn lemma_rfind_dash_through(s: Seq<char>, t: Seq<char>)
    requires
        s.len() > 0,
        s.last() == '-',
        forall|i: int| 0 <= i < t.len() ==> t[i] != '-',
    ensures
        spec_rfind_dash(s + t) == Some(s.len() - 1),
    decreases t.len(),
{
    if t.len() == 0 {
        assert(s + t =~= s);
    } else {
        lemma_rfind_dash_through(s, t.drop_last());
        assert((s + t).drop_last() =~= s + t.drop_last());
        assert((s + t).last() == t.last());
    }
}

/// The canonical quantization suffixes contain no dash.
proof fn lemma_suffix_dash_free(quant: Quantization)
    ensures
        forall|i: int| 0 <= i < spec_suffix(quant).len() ==> spec_suffix(quant)[i] != '-',
{
    reveal_strlit("q4_0");
    reveal_strlit("q5_0");
    reveal_strlit("q5_1");
    reveal_strlit("q8_0");
    reveal_strlit("f16");
}

/// Parsing the file name a download writes finds the installed variant
/// again: a rescan of the models directory reconstructs the entry the
/// download returned, equal in id, quantization, checksum and size. The
/// model id must be in the catalog (which the download checked), with a
/// variant of this quantization.
pub proof fn lemma_install_file_roundtrip(
    models: Seq<ModelInfo>,
    dir: Seq<char>,
    id: Seq<char>,
    quant: Quantization,
    size: u64,
)
    requires
        spec_has_variant(models, id, quant),
    ensures
        ({
            let model = spec_find_model(models, id)->Some_0;
            let variant = spec_find_variant(model.variants@, quant)->Some_0;
            spec_parse_model_file(models, dir, spec_model_file_name(id, quant), size) == Some(
                InstalledModelView {
                    id,
                    quantization: quant,
                    path: dir + "/"@ + spec_model_file_name(id, quant),
                    sha256: variant.sha256@,
                    size_bytes: size,
                },
            )
        }),
{
    reveal_strlit(".bin");
    reveal_strlit("-");
    let filename = spec_model_file_name(id, quant);
    let suffix = spec_suffix(quant);
    lemma_suffix_dash_free(quant);
    assert(suffix.len() >= 3) by {
        reveal_strlit("q4_0");
        reveal_strlit("q5_0");
        reveal_strlit("q5_1");
        reveal_strlit("q8_0");
        reveal_strlit("f16");
    }
    assert(filename.len() == id.len() + 1 + suffix.len() + 4);
    assert(filename.subrange(filename.len() - 4, filename.len() as int) =~= ".bin"@);
    let stem = filename.take(filename.len() - 4);
    assert(stem =~= (id + "-"@) + suffix);
    lemma_rfind_dash_through(id + "-"@, suffix);
    assert(spec_rfind_dash(stem) == Some(id.len() as int));
    assert(stem.take(id.len() as int) =~= id);
    assert(stem.skip(id.len() as int + 1) =~= suffix);
    crate::model::lemma_suffix_roundtrip(quant);
}

/// A directory listing entry that parses as an installed variant is in
/// the scan result.
pub proof fn lemma_scan_finds(
    models: Seq<ModelInfo>,
    dir: Seq<char>,
    files: Seq<(String, u64)>,
    i: int,
)
    requires
        0 <= i < files.len(),
        spec_parse_model_file(models, dir, files[i].0@, files[i].1) is Some,
    ensures
        spec_scan(models, dir, files).contains(
            spec_parse_model_file(models, dir, files[i].0@, files[i].1)->Some_0,
        ),
    decreases files.len(),
{
    let parsed = spec_parse_model_file(models, dir, files[i].0@, files[i].1)->Some_0;
    if i == files.len() - 1 {
        assert(files.last() == files[i]);
        match spec_parse_model_file(models, dir, files.last().0@, files.last().1) {
            Some(m) => {
                let rest = spec_scan(models, dir, files.drop_last());
                assert(rest.push(m)[rest.len() as int] == m);
            },
            None => {
                assert(false);
            },
        }
    } else {
        assert(files.drop_last()[i] == files[i]);
        lemma_scan_finds(models, dir, files.drop_last(), i);
        let rest = spec_scan(models, dir, files.drop_last());
        let j = choose|j: int| 0 <= j < rest.len() && rest[j] == parsed;
        match spec_parse_model_file(models, dir, files.last().0@, files.last().1) {
            Some(m) => {
                assert(rest.push(m)[j] == parsed);
            },
            None => {},
        }
    }
}

} // verus!
