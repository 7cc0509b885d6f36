use vstd::prelude::*;

verus! {

/// One sensor that a hardware profile provides.
#[derive(Debug, PartialEq, Eq)]
pub struct CatalogueSensor {
    pub id: u128,
    pub sensor_type: String,
    pub unit: String,
}

/// One row of the catalogue query: an active device model, one hardware
/// profile it supports and, when the profile has any, one of its sensors.
/// Identifiers are the 128-bit values of the persisted UUIDs.
#[derive(Debug)]
pub struct CatalogueRow {
    pub device_model_id: u128,
    pub model_code: String,
    pub model_name: String,
    pub manufacturer: Option<String>,
    pub model_description: Option<String>,
    pub model_is_active: bool,
    pub hardware_profile_id: u128,
    pub profile_code: String,
    pub profile_name: String,
    pub profile_description: Option<String>,
    pub is_default: bool,
    pub sensor: Option<CatalogueSensor>,
}

/// A hardware profile of a catalogue model with its sensors.
#[derive(Debug)]
pub struct CatalogueProfile {
    pub id: u128,
    pub profile_code: String,
    pub name: String,
    pub description: Option<String>,
    pub is_default: bool,
    pub sensors: Vec<CatalogueSensor>,
}

/// A device model of the catalogue with its hardware profiles.
#[derive(Debug)]
pub struct CatalogueModel {
    pub id: u128,
    pub model_code: String,
    pub model_name: String,
    pub manufacturer: Option<String>,
    pub description: Option<String>,
    pub is_active: bool,
    pub profiles: Vec<CatalogueProfile>,
}

/// A catalogue profile as a value.
pub struct ProfileEntry {
    pub id: u128,
    pub profile_code: String,
    pub name: String,
    pub description: Option<String>,
    pub is_default: bool,
    pub sensors: Seq<CatalogueSensor>,
}

/// A catalogue model as a value.
pub struct ModelEntry {
    pub id: u128,
    pub model_code: String,
    pub model_name: String,
    pub manufacturer: Option<String>,
    pub description: Option<String>,
    pub is_active: bool,
    pub profiles: Seq<ProfileEntry>,
}

impl View for CatalogueProfile {
    type V = ProfileEntry;

    open spec fn view(&self) -> ProfileEntry {
        ProfileEntry {
            id: self.id,
            profile_code: self.profile_code,
            name: self.name,
            description: self.description,
            is_default: self.is_default,
            sensors: self.sensors@,
        }
    }
}

impl View for CatalogueModel {
    type V = ModelEntry;

    open spec fn view(&self) -> ModelEntry {
        ModelEntry {
            id: self.id,
            model_code: self.model_code,
            model_name: self.model_name,
            manufacturer: self.manufacturer,
            description: self.description,
            is_active: self.is_active,
            profiles: self.profiles@.map_values(|p: CatalogueProfile| p@),
        }
    }
}

/// The catalogue as values.
pub open spec fn catalogue_view(catalogue: Seq<CatalogueModel>) -> Seq<ModelEntry> {
    catalogue.map_values(|m: CatalogueModel| m@)
}

/// A sensor is listed once per profile: a sensor whose identifier is
/// already listed is not added again.
pub open spec fn with_sensor(sensors: Seq<CatalogueSensor>, sensor: CatalogueSensor) -> Seq<
    CatalogueSensor,
> {
    if exists|i: int| 0 <= i < sensors.len() && #[trigger] sensors[i].id == sensor.id {
        sensors
    } else {
        sensors.push(sensor)
    }
}

/// The profile after the row's sensor, if any, is listed in it.
pub open spec fn profile_with_row(profile: ProfileEntry, row: CatalogueRow) -> ProfileEntry {
    match row.sensor {
        Some(sensor) => ProfileEntry { sensors: with_sensor(profile.sensors, sensor), ..profile },
        None => profile,
    }
}

/// The profile a row introduces, before its sensor is listed.
pub open spec fn new_profile(row: CatalogueRow) -> ProfileEntry {
    ProfileEntry {
        id: row.hardware_profile_id,
        profile_code: row.profile_code,
        name: row.profile_name,
        description: row.profile_description,
        is_default: row.is_default,
        sensors: Seq::empty(),
    }
}

/// `k` is the first position of a profile with identifier `id`.
pub open spec fn is_first_profile(profiles: Seq<ProfileEntry>, id: u128, k: int) -> bool {
    &&& 0 <= k < profiles.len()
    &&& profiles[k].id == id
    &&& forall|j: int| 0 <= j < k ==> #[trigger] profiles[j].id != id
}

/// The row is added to the first profile with its identifier, or to a new
/// profile appended at the end.
pub open spec fn profiles_with_row(profiles: Seq<ProfileEntry>, row: CatalogueRow) -> Seq<
    ProfileEntry,
> {
    if exists|k: int| is_first_profile(profiles, row.hardware_profile_id, k) {
        let k = choose|k: int| is_first_profile(profiles, row.hardware_profile_id, k);
        profiles.update(k, profile_with_row(profiles[k], row))
    } else {
        profiles.push(profile_with_row(new_profile(row), row))
    }
}

/// The model after the row is added to its profiles.
pub open spec fn model_with_row(model: ModelEntry, row: CatalogueRow) -> ModelEntry {
    ModelEntry { profiles: profiles_with_row(model.profiles, row), ..model }
}

/// The model a row introduces, before its profile is added.
pub open spec fn new_model(row: CatalogueRow) -> ModelEntry {
    ModelEntry {
        id: row.device_model_id,
        model_code: row.model_code,
        model_name: row.model_name,
        manufacturer: row.manufacturer,
        description: row.model_description,
        is_active: row.model_is_active,
        profiles: Seq::empty(),
    }
}

/// `k` is the first position of a model with identifier `id`.
pub open spec fn is_first_model(models: Seq<ModelEntry>, id: u128, k: int) -> bool {
    &&& 0 <= k < models.len()
    &&& models[k].id == id
    &&& forall|j: int| 0 <= j < k ==> #[trigger] models[j].id != id
}

/// The row is added to the first model with its identifier, or to a new
/// model appended at the end.
pub open spec fn models_with_row(models: Seq<ModelEntry>, row: CatalogueRow) -> Seq<ModelEntry> {
    if exists|k: int| is_first_model(models, row.device_model_id, k) {
        let k = choose|k: int| is_first_model(models, row.device_model_id, k);
        models.update(k, model_with_row(models[k], row))
    } else {
        models.push(model_with_row(new_model(row), row))
    }
}

/// The catalogue built from the rows in query order: models, their
/// profiles and their sensors each appear once, in order of first
/// appearance.
pub open spec fn catalogue_of(rows: Seq<CatalogueRow>) -> Seq<ModelEntry>
    decreases rows.len(),
{
    if rows.len() == 0 {
        Seq::empty()
    } else {
        models_with_row(catalogue_of(rows.drop_last()), rows.last())
    }
}

/// Whenever some model has identifier `id`, a first one does.
proof fn lemma_first_model_exists(models: Seq<ModelEntry>, id: u128, i: int)
    requires
        0 <= i < models.len(),
        models[i].id == id,
    ensures
        exists|k: int| is_first_model(models, id, k),
    decreases i,
{
    if exists|j: int| 0 <= j < i && #[trigger] models[j].id == id {
        let j = choose|j: int| 0 <= j < i && #[trigger] models[j].id == id;
        lemma_first_model_exists(models, id, j);
    } else {
        assert(is_first_model(models, id, i));
    }
}

/// Every device model appears once in the catalogue, and the catalogue
/// holds a model for every row.
pub proof fn lemma_catalogue_lists_each_model_once(rows: Seq<CatalogueRow>)
    ensures
        forall|i: int, j: int|
            0 <= i < j < catalogue_of(rows).len() ==> #[trigger] catalogue_of(rows)[i].id
                != #[trigger] catalogue_of(rows)[j].id,
        forall|r: int|
            0 <= r < rows.len() ==> exists|k: int|
                0 <= k < catalogue_of(rows).len() && #[trigger] catalogue_of(rows)[k].id
                    == #[trigger] rows[r].device_model_id,
    decreases rows.len(),
{
    if rows.len() > 0 {
        let earlier = rows.drop_last();
        let row = rows.last();
        lemma_catalogue_lists_each_model_once(earlier);
        let before = catalogue_of(earlier);
        let after = catalogue_of(rows);
        assert(after == models_with_row(before, row));
        if exists|k: int| is_first_model(before, row.device_model_id, k) {
            let k = choose|k: int| is_first_model(before, row.device_model_id, k);
            assert(after == before.update(k, model_with_row(before[k], row)));
            assert forall|i: int| 0 <= i < after.len() implies #[trigger] after[i].id
                == before[i].id by {}
            assert forall|r: int| 0 <= r < rows.len() implies exists|m: int|
                0 <= m < after.len() && #[trigger] after[m].id == #[trigger] rows[r].device_model_id by {
                if r < earlier.len() {
                    assert(rows[r] == earlier[r]);
                    let m = choose|m: int|
                        0 <= m < before.len() && #[trigger] before[m].id == earlier[r].device_model_id;
                    assert(after[m].id == before[m].id);
                } else {
                    assert(after[k].id == rows[r].device_model_id);
                }
            }
        } else {
            assert(after == before.push(model_with_row(new_model(row), row)));
            assert forall|i: int| 0 <= i < before.len() implies #[trigger] before[i].id
                != row.device_model_id by {
                if before[i].id == row.device_model_id {
                    lemma_first_model_exists(before, row.device_model_id, i);
                }
            }
            assert forall|i: int, j: int|
                0 <= i < j < after.len() implies #[trigger] after[i].id != #[trigger] after[j].id by {
                if j == before.len() {
                    assert(after[i].id == before[i].id);
                } else {
                    assert(after[i].id == before[i].id);
                    assert(after[j].id == before[j].id);
                }
            }
            assert forall|r: int| 0 <= r < rows.len() implies exists|m: int|
                0 <= m < after.len() && #[trigger] after[m].id == #[trigger] rows[r].device_model_id by {
                if r < earlier.len() {
                    assert(rows[r] == earlier[r]);
                    let m = choose|m: int|
                        0 <= m < before.len() && #[trigger] before[m].id == earlier[r].device_model_id;
                    assert(after[m].id == before[m].id);
                } else {
                    assert(after[before.len() as int].id == rows[r].device_model_id);
                }
            }
        }
    }
}

/// Row `r` is the first row of model `model.id`, and `model` carries that
/// row's model fields.
pub open spec fn row_introduces_model(rows: Seq<CatalogueRow>, r: int, model: ModelEntry) -> bool {
    &&& 0 <= r < rows.len()
    &&& rows[r].device_model_id == model.id
    &&& model.model_code == rows[r].model_code
    &&& model.model_name == rows[r].model_name
    &&& model.manufacturer == rows[r].manufacturer
    &&& model.description == rows[r].model_description
    &&& model.is_active == rows[r].model_is_active
    &&& forall|e: int| 0 <= e < r ==> #[trigger] rows[e].device_model_id != model.id
}

/// Row `r` is the first row of profile `profile.id` under model `model_id`,
/// and `profile` carries that row's hardware-profile fields.
pub open spec fn row_introduces_profile(
    rows: Seq<CatalogueRow>,
    r: int,
    model_id: u128,
    profile: ProfileEntry,
) -> bool {
    &&& 0 <= r < rows.len()
    &&& rows[r].device_model_id == model_id
    &&& rows[r].hardware_profile_id == profile.id
    &&& profile.profile_code == rows[r].profile_code
    &&& profile.name == rows[r].profile_name
    &&& profile.description == rows[r].profile_description
    &&& profile.is_default == rows[r].is_default
    &&& forall|e: int|
        0 <= e < r ==> !(#[trigger] rows[e].device_model_id == model_id
            && rows[e].hardware_profile_id == profile.id)
}

/// Some row of model `model_id` and profile `profile_id` lists `sensor`.
pub open spec fn row_lists_sensor(
    rows: Seq<CatalogueRow>,
    model_id: u128,
    profile_id: u128,
    sensor: CatalogueSensor,
) -> bool {
    exists|r: int|
        0 <= r < rows.len() && #[trigger] rows[r].device_model_id == model_id
            && rows[r].hardware_profile_id == profile_id && rows[r].sensor == Some(sensor)
}

/// The catalogue has a profile `profile_id` under a model `model_id`.
pub open spec fn catalogue_lists(catalogue: Seq<ModelEntry>, model_id: u128, profile_id: u128) -> bool {
    exists|k: int, q: int|
        0 <= k < catalogue.len() && 0 <= q < catalogue[k].profiles.len() && #[trigger] catalogue[k].id
            == model_id && #[trigger] catalogue[k].profiles[q].id == profile_id
}

/// Whenever some profile has identifier `id`, a first one does.
proof fn lemma_first_profile_exists(profiles: Seq<ProfileEntry>, id: u128, i: int)
    requires
        0 <= i < profiles.len(),
        profiles[i].id == id,
    ensures
        exists|k: int| is_first_profile(profiles, id, k),
    decreases i,
{
    if exists|j: int| 0 <= j < i && #[trigger] profiles[j].id == id {
        let j = choose|j: int| 0 <= j < i && #[trigger] profiles[j].id == id;
        lemma_first_profile_exists(profiles, id, j);
    } else {
        assert(is_first_profile(profiles, id, i));
    }
}

/// Facts about `earlier` rows stay true when one more row follows them.
proof fn lemma_origins_extend(earlier: Seq<CatalogueRow>, rows: Seq<CatalogueRow>)
    requires
        earlier.len() + 1 == rows.len(),
        forall|i: int| 0 <= i < earlier.len() ==> rows[i] == earlier[i],
    ensures
        forall|r: int, model: ModelEntry|
            row_introduces_model(earlier, r, model) ==> #[trigger] row_introduces_model(
                rows,
                r,
                model,
            ),
        forall|r: int, model_id: u128, profile: ProfileEntry|
            row_introduces_profile(earlier, r, model_id, profile) ==> #[trigger] row_introduces_profile(
                rows,
                r,
                model_id,
                profile,
            ),
        forall|model_id: u128, profile_id: u128, sensor: CatalogueSensor|
            row_lists_sensor(earlier, model_id, profile_id, sensor) ==> #[trigger] row_lists_sensor(
                rows,
                model_id,
                profile_id,
                sensor,
            ),
{
    assert forall|r: int, model: ModelEntry| row_introduces_model(earlier, r, model) implies #[trigger] row_introduces_model(
        rows,
        r,
        model,
    ) by {
        assert forall|e: int| 0 <= e < r implies #[trigger] rows[e].device_model_id != model.id by {
            assert(rows[e] == earlier[e]);
        }
    }
    assert forall|r: int, model_id: u128, profile: ProfileEntry|
        row_introduces_profile(earlier, r, model_id, profile) implies #[trigger] row_introduces_profile(
        rows,
        r,
        model_id,
        profile,
    ) by {
        assert forall|e: int| 0 <= e < r implies !(#[trigger] rows[e].device_model_id == model_id
            && rows[e].hardware_profile_id == profile.id) by {
            assert(rows[e] == earlier[e]);
        }
    }
    assert forall|model_id: u128, profile_id: u128, sensor: CatalogueSensor|
        row_lists_sensor(earlier, model_id, profile_id, sensor) implies #[trigger] row_lists_sensor(
        rows,
        model_id,
        profile_id,
        sensor,
    ) by {
        let r = choose|r: int|
            0 <= r < earlier.len() && #[trigger] earlier[r].device_model_id == model_id
                && earlier[r].hardware_profile_id == profile_id && earlier[r].sensor == Some(sensor);
        assert(rows[r] == earlier[r]);
    }
}

/// The profiles `profiles` of model `model_id` each come from the first row
/// of their profile, and each of their sensors from some row of theirs.
/// Some row introduces `profile` under model `model_id`.
pub open spec fn profile_has_origin(rows: Seq<CatalogueRow>, model_id: u128, profile: ProfileEntry) -> bool {
    exists|r: int| row_introduces_profile(rows, r, model_id, profile)
}

/// Some row introduces `model`.
pub open spec fn model_has_origin(rows: Seq<CatalogueRow>, model: ModelEntry) -> bool {
    exists|r: int| row_introduces_model(rows, r, model)
}

spec fn profiles_come_from_rows(
    rows: Seq<CatalogueRow>,
    model_id: u128,
    profiles: Seq<ProfileEntry>,
) -> bool {
    &&& forall|q: int|
        0 <= q < profiles.len() ==> profile_has_origin(rows, model_id, #[trigger] profiles[q])
    &&& forall|q: int, t: int|
        0 <= q < profiles.len() && 0 <= t < profiles[q].sensors.len() ==> row_lists_sensor(
            rows,
            model_id,
            profiles[q].id,
            #[trigger] profiles[q].sensors[t],
        )
}

/// The model comes from the first row of its model, its profiles as above.
#[verifier::opaque]
spec fn model_comes_from_rows(rows: Seq<CatalogueRow>, model: ModelEntry) -> bool {
    &&& model_has_origin(rows, model)
    &&& profiles_come_from_rows(rows, model.id, model.profiles)
}

/// Every entry of the catalogue comes from the rows, and every row is listed.
#[verifier::opaque]
spec fn entries_come_from_rows(rows: Seq<CatalogueRow>, catalogue: Seq<ModelEntry>) -> bool {
    &&& forall|k: int| 0 <= k < catalogue.len() ==> model_comes_from_rows(rows, #[trigger] catalogue[k])
    &&& forall|r: int|
        0 <= r < rows.len() ==> catalogue_lists(
            catalogue,
            (#[trigger] rows[r]).device_model_id,
            rows[r].hardware_profile_id,
        )
}

proof fn lemma_profiles_extend(
    earlier: Seq<CatalogueRow>,
    rows: Seq<CatalogueRow>,
    model_id: u128,
    profiles: Seq<ProfileEntry>,
)
    requires
        earlier.len() + 1 == rows.len(),
        forall|i: int| 0 <= i < earlier.len() ==> rows[i] == earlier[i],
        profiles_come_from_rows(earlier, model_id, profiles),
    ensures
        profiles_come_from_rows(rows, model_id, profiles),
{
    reveal(profiles_come_from_rows);
    lemma_origins_extend(earlier, rows);
    assert forall|q: int| 0 <= q < profiles.len() implies profile_has_origin(
        rows,
        model_id,
        #[trigger] profiles[q],
    ) by {
        assert(profile_has_origin(earlier, model_id, profiles[q]));
        let r = choose|r: int| row_introduces_profile(earlier, r, model_id, profiles[q]);
        assert(row_introduces_profile(earlier, r, model_id, profiles[q]));
        assert(row_introduces_profile(rows, r, model_id, profiles[q]));
    }
    assert forall|q: int, t: int|
        0 <= q < profiles.len() && 0 <= t < profiles[q].sensors.len() implies row_lists_sensor(
        rows,
        model_id,
        profiles[q].id,
        #[trigger] profiles[q].sensors[t],
    ) by {
        assert(row_lists_sensor(earlier, model_id, profiles[q].id, profiles[q].sensors[t]));
    }
}

proof fn lemma_model_extend(earlier: Seq<CatalogueRow>, rows: Seq<CatalogueRow>, model: ModelEntry)
    requires
        earlier.len() + 1 == rows.len(),
        forall|i: int| 0 <= i < earlier.len() ==> rows[i] == earlier[i],
        model_comes_from_rows(earlier, model),
    ensures
        model_comes_from_rows(rows, model),
{
    reveal(model_comes_from_rows);
    lemma_origins_extend(earlier, rows);
    assert(model_has_origin(earlier, model));
    let r = choose|r: int| row_introduces_model(earlier, r, model);
    assert(row_introduces_model(rows, r, model));
    lemma_profiles_extend(earlier, rows, model.id, model.profiles);
}

/// The row's sensor, if any, is listed by the last row.
proof fn lemma_last_row_sensor(rows: Seq<CatalogueRow>)
    requires
        rows.len() > 0,
        rows.last().sensor is Some,
    ensures
        row_lists_sensor(
            rows,
            rows.last().device_model_id,
            rows.last().hardware_profile_id,
            rows.last().sensor->0,
        ),
{
    let n = rows.len() - 1;
    assert(rows[n] == rows.last());
    assert(rows[n].device_model_id == rows.last().device_model_id);
}

/// The profiles after the last row when its profile is already listed.
proof fn lemma_profile_row_existing(
    earlier: Seq<CatalogueRow>,
    rows: Seq<CatalogueRow>,
    model_id: u128,
    profiles: Seq<ProfileEntry>,
    q0: int,
)
    requires
        earlier.len() + 1 == rows.len(),
        forall|i: int| 0 <= i < earlier.len() ==> rows[i] == earlier[i],
        rows.last().device_model_id == model_id,
        is_first_profile(profiles, rows.last().hardware_profile_id, q0),
        profiles_come_from_rows(earlier, model_id, profiles),
    ensures
        profiles_come_from_rows(rows, model_id, profiles_with_row(profiles, rows.last())),
        profiles_with_row(profiles, rows.last()).len() == profiles.len(),
        forall|q: int|
            0 <= q < profiles.len() ==> #[trigger] profiles_with_row(profiles, rows.last())[q].id
                == profiles[q].id,
{
    let row = rows.last();
    lemma_profiles_extend(earlier, rows, model_id, profiles);
    let chosen = choose|c: int| is_first_profile(profiles, row.hardware_profile_id, c);
    assert(chosen == q0) by {
        if chosen < q0 {
            assert(profiles[chosen].id != row.hardware_profile_id);
        } else if chosen > q0 {
            assert(profiles[q0].id != row.hardware_profile_id);
        }
    }
    let ps1 = profiles_with_row(profiles, row);
    assert(ps1 == profiles.update(q0, profile_with_row(profiles[q0], row)));
    if row.sensor is Some {
        lemma_last_row_sensor(rows);
    }
    reveal(profiles_come_from_rows);
    assert forall|q: int| 0 <= q < ps1.len() implies profile_has_origin(
        rows,
        model_id,
        #[trigger] ps1[q],
    ) by {
        assert(profile_has_origin(rows, model_id, profiles[q]));
        let r = choose|r: int| row_introduces_profile(rows, r, model_id, profiles[q]);
        assert(row_introduces_profile(rows, r, model_id, ps1[q]));
    }
    assert forall|q: int, t: int|
        0 <= q < ps1.len() && 0 <= t < ps1[q].sensors.len() implies row_lists_sensor(
        rows,
        model_id,
        ps1[q].id,
        #[trigger] ps1[q].sensors[t],
    ) by {
        if q != q0 || t < profiles[q].sensors.len() {
            assert(ps1[q].sensors[t] == profiles[q].sensors[t]);
            assert(row_lists_sensor(rows, model_id, profiles[q].id, profiles[q].sensors[t]));
        } else {
            assert(ps1[q].sensors[t] == row.sensor->0);
        }
    }
}

/// The profiles after the last row when its profile is not listed yet and
/// no earlier row names it under this model.
proof fn lemma_profile_row_new(
    earlier: Seq<CatalogueRow>,
    rows: Seq<CatalogueRow>,
    model_id: u128,
    profiles: Seq<ProfileEntry>,
)
    requires
        earlier.len() + 1 == rows.len(),
        forall|i: int| 0 <= i < earlier.len() ==> rows[i] == earlier[i],
        rows.last().device_model_id == model_id,
        forall|q: int| 0 <= q < profiles.len() ==> #[trigger] profiles[q].id
            != rows.last().hardware_profile_id,
        forall|e: int|
            0 <= e < earlier.len() ==> !(#[trigger] earlier[e].device_model_id == model_id
                && earlier[e].hardware_profile_id == rows.last().hardware_profile_id),
        profiles_come_from_rows(earlier, model_id, profiles),
    ensures
        profiles_come_from_rows(rows, model_id, profiles_with_row(profiles, rows.last())),
        profiles_with_row(profiles, rows.last()).len() == profiles.len() + 1,
        profiles_with_row(profiles, rows.last())[profiles.len() as int].id
            == rows.last().hardware_profile_id,
        forall|q: int|
            0 <= q < profiles.len() ==> #[trigger] profiles_with_row(profiles, rows.last())[q].id
                == profiles[q].id,
{
    let row = rows.last();
    let n = earlier.len() as int;
    lemma_profiles_extend(earlier, rows, model_id, profiles);
    assert(!exists|c: int| is_first_profile(profiles, row.hardware_profile_id, c));
    let fresh = profile_with_row(new_profile(row), row);
    let ps1 = profiles_with_row(profiles, row);
    assert(ps1 == profiles.push(fresh));
    assert(rows[n] == row);
    assert forall|e: int| 0 <= e < n implies !(#[trigger] rows[e].device_model_id == model_id
        && rows[e].hardware_profile_id == fresh.id) by {
        assert(rows[e] == earlier[e]);
    }
    assert(row_introduces_profile(rows, n, model_id, fresh));
    if row.sensor is Some {
        lemma_last_row_sensor(rows);
    }
    reveal(profiles_come_from_rows);
    assert forall|q: int| 0 <= q < ps1.len() implies profile_has_origin(
        rows,
        model_id,
        #[trigger] ps1[q],
    ) by {
        if q < profiles.len() {
            assert(profile_has_origin(rows, model_id, profiles[q]));
        let r = choose|r: int| row_introduces_profile(rows, r, model_id, profiles[q]);
            assert(row_introduces_profile(rows, r, model_id, ps1[q]));
        } else {
            assert(row_introduces_profile(rows, n, model_id, ps1[q]));
        }
    }
    assert forall|q: int, t: int|
        0 <= q < ps1.len() && 0 <= t < ps1[q].sensors.len() implies row_lists_sensor(
        rows,
        model_id,
        ps1[q].id,
        #[trigger] ps1[q].sensors[t],
    ) by {
        if q < profiles.len() {
            assert(row_lists_sensor(rows, model_id, profiles[q].id, profiles[q].sensors[t]));
        } else {
            assert(ps1[q].sensors[t] == row.sensor->0);
        }
    }
}

/// The profiles of an already listed model after one more row.
#[verifier::rlimit(40)]
proof fn lemma_step_profiles(earlier: Seq<CatalogueRow>, rows: Seq<CatalogueRow>, k0: int)
    requires
        earlier.len() + 1 == rows.len(),
        forall|i: int| 0 <= i < earlier.len() ==> rows[i] == earlier[i],
        entries_come_from_rows(earlier, catalogue_of(earlier)),
        forall|i: int, j: int|
            0 <= i < j < catalogue_of(earlier).len() ==> #[trigger] catalogue_of(earlier)[i].id
                != #[trigger] catalogue_of(earlier)[j].id,
        is_first_model(catalogue_of(earlier), rows.last().device_model_id, k0),
    ensures
        ({
            let before = catalogue_of(earlier);
            let ps1 = profiles_with_row(before[k0].profiles, rows.last());
            &&& profiles_come_from_rows(rows, before[k0].id, ps1)
            &&& before[k0].profiles.len() <= ps1.len()
            &&& forall|q: int|
                0 <= q < before[k0].profiles.len() ==> #[trigger] ps1[q].id
                    == before[k0].profiles[q].id
            &&& exists|q: int| 0 <= q < ps1.len() && #[trigger] ps1[q].id == rows.last().hardware_profile_id
        }),
{
    let row = rows.last();
    let before = catalogue_of(earlier);
    let m0 = before[k0];
    let ps = m0.profiles;
    reveal(entries_come_from_rows);
    reveal(model_comes_from_rows);
    assert(model_comes_from_rows(earlier, before[k0]));
    if exists|q: int| is_first_profile(ps, row.hardware_profile_id, q) {
        let q0 = choose|q: int| is_first_profile(ps, row.hardware_profile_id, q);
        lemma_profile_row_existing(earlier, rows, m0.id, ps, q0);
        let ps1 = profiles_with_row(ps, row);
        assert(ps1[q0].id == row.hardware_profile_id);
    } else {
        assert forall|q: int| 0 <= q < ps.len() implies #[trigger] ps[q].id
            != row.hardware_profile_id by {
            if ps[q].id == row.hardware_profile_id {
                lemma_first_profile_exists(ps, row.hardware_profile_id, q);
            }
        }
        assert forall|e: int| 0 <= e < earlier.len() implies !(
        #[trigger] earlier[e].device_model_id == m0.id && earlier[e].hardware_profile_id
            == row.hardware_profile_id) by {
            if earlier[e].device_model_id == m0.id && earlier[e].hardware_profile_id
                == row.hardware_profile_id {
                assert(catalogue_lists(
                    before,
                    earlier[e].device_model_id,
                    earlier[e].hardware_profile_id,
                ));
                let (k, q) = choose|k: int, q: int|
                    0 <= k < before.len() && 0 <= q < before[k].profiles.len()
                        && #[trigger] before[k].id == earlier[e].device_model_id
                        && #[trigger] before[k].profiles[q].id == earlier[e].hardware_profile_id;
                if k < k0 {
                    assert(before[k].id != before[k0].id);
                } else if k > k0 {
                    assert(before[k0].id != before[k].id);
                }
                assert(ps[q].id == row.hardware_profile_id);
            }
        }
        lemma_profile_row_new(earlier, rows, m0.id, ps);
        let ps1 = profiles_with_row(ps, row);
        assert(ps1[ps.len() as int].id == row.hardware_profile_id);
    }
}

/// One more row whose model is already listed.
#[verifier::rlimit(40)]
proof fn lemma_step_existing_model(earlier: Seq<CatalogueRow>, rows: Seq<CatalogueRow>, k0: int)
    requires
        earlier.len() + 1 == rows.len(),
        forall|i: int| 0 <= i < earlier.len() ==> rows[i] == earlier[i],
        entries_come_from_rows(earlier, catalogue_of(earlier)),
        forall|i: int, j: int|
            0 <= i < j < catalogue_of(earlier).len() ==> #[trigger] catalogue_of(earlier)[i].id
                != #[trigger] catalogue_of(earlier)[j].id,
        is_first_model(catalogue_of(earlier), rows.last().device_model_id, k0),
    ensures
        entries_come_from_rows(rows, models_with_row(catalogue_of(earlier), rows.last())),
{
    let row = rows.last();
    let n = earlier.len() as int;
    let before = catalogue_of(earlier);
    let m0 = before[k0];
    let m1 = model_with_row(m0, row);
    let chosen = choose|c: int| is_first_model(before, row.device_model_id, c);
    assert(chosen == k0) by {
        if chosen < k0 {
            assert(before[chosen].id != row.device_model_id);
        } else if chosen > k0 {
            assert(before[k0].id != row.device_model_id);
        }
    }
    let after = models_with_row(before, row);
    assert(after == before.update(k0, m1));
    assert(rows[n] == row);
    lemma_step_profiles(earlier, rows, k0);
    reveal(entries_come_from_rows);
    reveal(model_comes_from_rows);
    assert(model_comes_from_rows(earlier, m0));
    assert(model_has_origin(earlier, m0));
    let r0 = choose|r: int| row_introduces_model(earlier, r, m0);
    lemma_origins_extend(earlier, rows);
    assert(row_introduces_model(rows, r0, m0));
    assert(row_introduces_model(rows, r0, m1));
    assert(model_comes_from_rows(rows, m1));
    assert forall|k: int| 0 <= k < after.len() implies model_comes_from_rows(
        rows,
        #[trigger] after[k],
    ) by {
        if k != k0 {
            assert(model_comes_from_rows(earlier, before[k]));
            lemma_model_extend(earlier, rows, before[k]);
        }
    }
    assert forall|r: int| 0 <= r < rows.len() implies catalogue_lists(
        after,
        (#[trigger] rows[r]).device_model_id,
        rows[r].hardware_profile_id,
    ) by {
        if r < n {
            assert(rows[r] == earlier[r]);
            assert(catalogue_lists(before, earlier[r].device_model_id, earlier[r].hardware_profile_id));
            let (k, q) = choose|k: int, q: int|
                0 <= k < before.len() && 0 <= q < before[k].profiles.len()
                    && #[trigger] before[k].id == earlier[r].device_model_id
                    && #[trigger] before[k].profiles[q].id == earlier[r].hardware_profile_id;
            if k == k0 {
                assert(after[k].profiles[q].id == before[k].profiles[q].id);
            } else {
                assert(after[k] == before[k]);
            }
        } else {
            let q1 = choose|q: int| 0 <= q < m1.profiles.len() && #[trigger] m1.profiles[q].id
                == row.hardware_profile_id;
            assert(after[k0].profiles[q1].id == row.hardware_profile_id);
        }
    }
}

/// One more row whose model is not listed yet.
#[verifier::rlimit(40)]
proof fn lemma_step_new_model(earlier: Seq<CatalogueRow>, rows: Seq<CatalogueRow>)
    requires
        earlier.len() + 1 == rows.len(),
        forall|i: int| 0 <= i < earlier.len() ==> rows[i] == earlier[i],
        entries_come_from_rows(earlier, catalogue_of(earlier)),
        !exists|k: int| is_first_model(catalogue_of(earlier), rows.last().device_model_id, k),
    ensures
        entries_come_from_rows(rows, models_with_row(catalogue_of(earlier), rows.last())),
{
    let row = rows.last();
    let n = earlier.len() as int;
    let before = catalogue_of(earlier);
    let after = models_with_row(before, row);
    assert(rows[n] == row);
    reveal(entries_come_from_rows);
    reveal(model_comes_from_rows);
    assert forall|e: int| 0 <= e < earlier.len() implies #[trigger] earlier[e].device_model_id
        != row.device_model_id by {
        if earlier[e].device_model_id == row.device_model_id {
            assert(catalogue_lists(before, earlier[e].device_model_id, earlier[e].hardware_profile_id));
            let (k, q) = choose|k: int, q: int|
                0 <= k < before.len() && 0 <= q < before[k].profiles.len()
                    && #[trigger] before[k].id == earlier[e].device_model_id
                    && #[trigger] before[k].profiles[q].id == earlier[e].hardware_profile_id;
            lemma_first_model_exists(before, row.device_model_id, k);
        }
    }
    let fresh = new_model(row);
    let m1 = model_with_row(fresh, row);
    assert(after == before.push(m1));
    let empty = Seq::<ProfileEntry>::empty();
    reveal(profiles_come_from_rows);
    assert(profiles_come_from_rows(earlier, row.device_model_id, empty));
    lemma_profile_row_new(earlier, rows, row.device_model_id, empty);
    assert forall|e: int| 0 <= e < n implies #[trigger] rows[e].device_model_id != m1.id by {
        assert(rows[e] == earlier[e]);
    }
    assert(row_introduces_model(rows, n, m1));
    assert(model_comes_from_rows(rows, m1));
    assert forall|k: int| 0 <= k < after.len() implies model_comes_from_rows(
        rows,
        #[trigger] after[k],
    ) by {
        if k < before.len() {
            assert(model_comes_from_rows(earlier, before[k]));
            lemma_model_extend(earlier, rows, before[k]);
        }
    }
    assert forall|r: int| 0 <= r < rows.len() implies catalogue_lists(
        after,
        (#[trigger] rows[r]).device_model_id,
        rows[r].hardware_profile_id,
    ) by {
        if r < n {
            assert(rows[r] == earlier[r]);
            assert(catalogue_lists(before, earlier[r].device_model_id, earlier[r].hardware_profile_id));
            let (k, q) = choose|k: int, q: int|
                0 <= k < before.len() && 0 <= q < before[k].profiles.len()
                    && #[trigger] before[k].id == earlier[r].device_model_id
                    && #[trigger] before[k].profiles[q].id == earlier[r].hardware_profile_id;
            assert(after[k] == before[k]);
        } else {
            let last = before.len() as int;
            assert(after[last] == m1);
            assert(after[last].profiles[0].id == row.hardware_profile_id);
        }
    }
}

/// One more row keeps every entry traced to the rows.
proof fn lemma_catalogue_step(earlier: Seq<CatalogueRow>, rows: Seq<CatalogueRow>)
    requires
        earlier.len() + 1 == rows.len(),
        forall|i: int| 0 <= i < earlier.len() ==> rows[i] == earlier[i],
        entries_come_from_rows(earlier, catalogue_of(earlier)),
    ensures
        entries_come_from_rows(rows, models_with_row(catalogue_of(earlier), rows.last())),
{
    lemma_catalogue_lists_each_model_once(earlier);
    let before = catalogue_of(earlier);
    if exists|k: int| is_first_model(before, rows.last().device_model_id, k) {
        let k0 = choose|k: int| is_first_model(before, rows.last().device_model_id, k);
        lemma_step_existing_model(earlier, rows, k0);
    } else {
        lemma_step_new_model(earlier, rows);
    }
}

/// Each entry of the catalogue carries the fields of the row that
/// introduced it: every model those of the first row of that model; every
/// hardware profile, under its model, those of the first row naming that
/// model and profile (its own code, name, description and default flag, not
/// the model's); every listed sensor is the sensor of a row of that model
/// and profile. Conversely every row's model and profile are listed.
pub proof fn lemma_catalogue_entries_come_from_their_rows(rows: Seq<CatalogueRow>)
    ensures
        forall|k: int|
            0 <= k < catalogue_of(rows).len() ==> model_has_origin(
                rows,
                #[trigger] catalogue_of(rows)[k],
            ),
        forall|k: int, q: int|
            0 <= k < catalogue_of(rows).len() && 0 <= q < catalogue_of(rows)[k].profiles.len()
                ==> profile_has_origin(
                rows,
                catalogue_of(rows)[k].id,
                #[trigger] catalogue_of(rows)[k].profiles[q],
            ),
        forall|k: int, q: int, t: int|
            0 <= k < catalogue_of(rows).len() && 0 <= q < catalogue_of(rows)[k].profiles.len() && 0
                <= t < catalogue_of(rows)[k].profiles[q].sensors.len() ==> row_lists_sensor(
                rows,
                catalogue_of(rows)[k].id,
                catalogue_of(rows)[k].profiles[q].id,
                #[trigger] catalogue_of(rows)[k].profiles[q].sensors[t],
            ),
        forall|r: int|
            0 <= r < rows.len() ==> catalogue_lists(
                catalogue_of(rows),
                (#[trigger] rows[r]).device_model_id,
                rows[r].hardware_profile_id,
            ),
{
    lemma_entries_come_from_rows(rows);
    reveal(entries_come_from_rows);
    reveal(model_comes_from_rows);
    let cat = catalogue_of(rows);
    assert forall|k: int, q: int|
        0 <= k < cat.len() && 0 <= q < cat[k].profiles.len() implies profile_has_origin(
        rows,
        cat[k].id,
        #[trigger] cat[k].profiles[q],
    ) by {
        assert(model_comes_from_rows(rows, cat[k]));
    }
    assert forall|k: int, q: int, t: int|
        0 <= k < cat.len() && 0 <= q < cat[k].profiles.len() && 0 <= t
            < cat[k].profiles[q].sensors.len() implies row_lists_sensor(
        rows,
        cat[k].id,
        cat[k].profiles[q].id,
        #[trigger] cat[k].profiles[q].sensors[t],
    ) by {
        assert(model_comes_from_rows(rows, cat[k]));
    }
    assert forall|k: int| 0 <= k < cat.len() implies model_has_origin(rows, #[trigger] cat[k]) by {
        assert(model_comes_from_rows(rows, cat[k]));
    }
}

proof fn lemma_entries_come_from_rows(rows: Seq<CatalogueRow>)
    ensures
        entries_come_from_rows(rows, catalogue_of(rows)),
    decreases rows.len(),
{
    if rows.len() == 0 {
        reveal(entries_come_from_rows);
    } else {
        let earlier = rows.drop_last();
        lemma_entries_come_from_rows(earlier);
        assert forall|i: int| 0 <= i < earlier.len() implies rows[i] == earlier[i] by {}
        lemma_catalogue_step(earlier, rows);
    }
}

fn copy_text(text: &Option<String>) -> (copy: Option<String>)
    ensures
        copy == *text,
{
    match text {
        Some(t) => Some(t.clone()),
        None => None,
    }
}

fn copy_sensor(sensor: &CatalogueSensor) -> (copy: CatalogueSensor)
    ensures
        copy == *sensor,
{
    CatalogueSensor { id: sensor.id, sensor_type: sensor.sensor_type.clone(), unit: sensor.unit.clone() }
}

/// Lists the row's sensor in `profile` unless it is listed already.
fn add_row_sensor(profile: &mut CatalogueProfile, row: &CatalogueRow)
    ensures
        final(profile)@ == profile_with_row(old(profile)@, *row),
{
    if let Some(sensor) = &row.sensor {
        let mut index: usize = 0;
        let mut listed = false;
        while index < profile.sensors.len() && !listed
            invariant
                index <= profile.sensors@.len(),
                listed ==> index < profile.sensors@.len() && profile.sensors@[index as int].id
                    == sensor.id,
                forall|j: int| 0 <= j < index ==> #[trigger] profile.sensors@[j].id != sensor.id,
            decreases profile.sensors@.len() - index, if listed { 0int } else { 1int },
        {
            if profile.sensors[index].id == sensor.id {
                listed = true;
            } else {
                index = index + 1;
            }
        }
        if !listed {
            let ghost before = profile.sensors@;
            profile.sensors.push(copy_sensor(sensor));
            assert(!(exists|i: int| 0 <= i < before.len() && #[trigger] before[i].id == sensor.id))
                by {
                if exists|i: int| 0 <= i < before.len() && #[trigger] before[i].id == sensor.id {
                    let i = choose|i: int| 0 <= i < before.len() && #[trigger] before[i].id == sensor.id;
                    assert(before[i].id != sensor.id);
                }
            }
        } else {
            assert(profile.sensors@[index as int].id == sensor.id);
        }
    }
}

/// Adds the row to the first profile with its identifier, or to a new one.
fn add_row_profile(profiles: &mut Vec<CatalogueProfile>, row: &CatalogueRow)
    ensures
        final(profiles)@.map_values(|p: CatalogueProfile| p@) == profiles_with_row(
            old(profiles)@.map_values(|p: CatalogueProfile| p@),
            *row,
        ),
{
    let ghost before = profiles@.map_values(|p: CatalogueProfile| p@);
    let mut index: usize = 0;
    while index < profiles.len() && profiles[index].id != row.hardware_profile_id
        invariant
            index <= profiles@.len(),
            before == profiles@.map_values(|p: CatalogueProfile| p@),
            forall|j: int| 0 <= j < index ==> #[trigger] profiles@[j].id != row.hardware_profile_id,
        decreases profiles@.len() - index,
    {
        index = index + 1;
    }
    if index < profiles.len() {
        let k = index;
        assert(before[k as int] == profiles@[k as int]@);
        assert forall|j: int| 0 <= j < k as int implies #[trigger] before[j].id != row.hardware_profile_id by {
            assert(before[j] == profiles@[j]@);
        }
        assert(is_first_profile(before, row.hardware_profile_id, k as int));
        let ghost chosen = choose|c: int| is_first_profile(before, row.hardware_profile_id, c);
        assert(chosen == k as int) by {
            if chosen < k as int {
                assert(profiles@[chosen].id != row.hardware_profile_id);
            } else if chosen > k as int {
                assert(before[k as int].id != row.hardware_profile_id);
            }
        }
        let mut profile = profiles.remove(k);
        add_row_sensor(&mut profile, row);
        profiles.insert(k, profile);
        assert(profiles@.map_values(|p: CatalogueProfile| p@) =~= before.update(
            k as int,
            profile_with_row(before[k as int], *row),
        ));
    } else {
        assert(!exists|c: int| is_first_profile(before, row.hardware_profile_id, c)) by {
            if exists|c: int| is_first_profile(before, row.hardware_profile_id, c) {
                let c = choose|c: int| is_first_profile(before, row.hardware_profile_id, c);
                assert(profiles@[c].id != row.hardware_profile_id);
            }
        }
        let mut profile = CatalogueProfile {
            id: row.hardware_profile_id,
            profile_code: row.profile_code.clone(),
            name: row.profile_name.clone(),
            description: copy_text(&row.profile_description),
            is_default: row.is_default,
            sensors: Vec::new(),
        };
        assert(profile@ =~= new_profile(*row));
        add_row_sensor(&mut profile, row);
        profiles.push(profile);
        assert(profiles@.map_values(|p: CatalogueProfile| p@) =~= before.push(
            profile_with_row(new_profile(*row), *row),
        ));
    }
}

/// Adds one row to the catalogue.
fn add_row(catalogue: &mut Vec<CatalogueModel>, row: &CatalogueRow)
    ensures
        catalogue_view(final(catalogue)@) == models_with_row(catalogue_view(old(catalogue)@), *row),
{
    let ghost before = catalogue_view(catalogue@);
    let mut index: usize = 0;
    while index < catalogue.len() && catalogue[index].id != row.device_model_id
        invariant
            index <= catalogue@.len(),
            before == catalogue_view(catalogue@),
            forall|j: int| 0 <= j < index ==> #[trigger] catalogue@[j].id != row.device_model_id,
        decreases catalogue@.len() - index,
    {
        index = index + 1;
    }
    if index < catalogue.len() {
        let k = index;
        assert(before[k as int] == catalogue@[k as int]@);
        assert forall|j: int| 0 <= j < k as int implies #[trigger] before[j].id != row.device_model_id by {
            assert(before[j] == catalogue@[j]@);
        }
        assert(is_first_model(before, row.device_model_id, k as int));
        let ghost chosen = choose|c: int| is_first_model(before, row.device_model_id, c);
        assert(chosen == k as int) by {
            if chosen < k as int {
                assert(catalogue@[chosen].id != row.device_model_id);
            } else if chosen > k as int {
                assert(before[k as int].id != row.device_model_id);
            }
        }
        let mut model = catalogue.remove(k);
        let ghost old_model = model@;
        add_row_profile(&mut model.profiles, row);
        assert(model@ =~= model_with_row(old_model, *row));
        catalogue.insert(k, model);
        assert(catalogue_view(catalogue@) =~= before.update(
            k as int,
            model_with_row(before[k as int], *row),
        ));
    } else {
        assert(!exists|c: int| is_first_model(before, row.device_model_id, c)) by {
            if exists|c: int| is_first_model(before, row.device_model_id, c) {
                let c = choose|c: int| is_first_model(before, row.device_model_id, c);
                assert(catalogue@[c].id != row.device_model_id);
            }
        }
        let mut model = CatalogueModel {
            id: row.device_model_id,
            model_code: row.model_code.clone(),
            model_name: row.model_name.clone(),
            manufacturer: copy_text(&row.manufacturer),
            description: copy_text(&row.model_description),
            is_active: row.model_is_active,
            profiles: Vec::new(),
        };
        assert(model@.profiles =~= Seq::<ProfileEntry>::empty());
        assert(model@ =~= new_model(*row));
        add_row_profile(&mut model.profiles, row);
        assert(model@ =~= model_with_row(new_model(*row), *row));
        catalogue.push(model);
        assert(catalogue_view(catalogue@) =~= before.push(model_with_row(new_model(*row), *row)));
    }
}

/// Groups the rows of the catalogue query, in query order, into device
/// models with their hardware profiles and the sensors of each profile.
pub fn build_device_catalogue(rows: &Vec<CatalogueRow>) -> (catalogue: Vec<CatalogueModel>)
    ensures
        catalogue_view(catalogue@) == catalogue_of(rows@),
{
    let mut catalogue: Vec<CatalogueModel> = Vec::new();
    let mut index: usize = 0;
    assert(catalogue_view(catalogue@) =~= catalogue_of(rows@.take(0)));
    while index < rows.len()
        invariant
            index <= rows@.len(),
            catalogue_view(catalogue@) == catalogue_of(rows@.take(index as int)),
        decreases rows@.len() - index,
    {
        add_row(&mut catalogue, &rows[index]);
        assert(rows@.take(index as int + 1).drop_last() =~= rows@.take(index as int));
        assert(rows@.take(index as int + 1).last() == rows@[index as int]);
        index = index + 1;
    }
    assert(rows@.take(rows@.len() as int) =~= rows@);
    catalogue
}

} // verus!
