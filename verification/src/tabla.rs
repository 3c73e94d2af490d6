//! The in-memory model of the students table: rows kept sorted newest first
//! (registration time descending, identifier descending on ties), with unique
//! identifiers and unique emails, and a counter standing for the
//! auto-increment column. The service handlers are verified against this
//! model; the SQL that a database client runs is built in `consultas`.

use vstd::prelude::*;
use crate::cadenas::textos_iguales;
use crate::modelo::Alumno;
use crate::modelo::VistaAlumno;

verus! {

/// The listing order: `a` comes before `b` when `a` was registered later, or
/// at the same instant with the larger identifier.
pub open spec fn antes(a: VistaAlumno, b: VistaAlumno) -> bool {
    a.fecha_registro > b.fecha_registro || (a.fecha_registro == b.fecha_registro && a.id > b.id)
}

/// Some row holds the identifier.
pub open spec fn existe_id(v: Seq<VistaAlumno>, id: int) -> bool {
    exists|i: int| 0 <= i < v.len() && (#[trigger] v[i]).id == id
}

/// Some row holds the email.
pub open spec fn existe_email(v: Seq<VistaAlumno>, email: Seq<char>) -> bool {
    exists|i: int| 0 <= i < v.len() && (#[trigger] v[i]).email == email
}

/// Some row other than the one with identifier `id` holds the email.
pub open spec fn existe_email_ajeno(v: Seq<VistaAlumno>, email: Seq<char>, id: int) -> bool {
    exists|i: int| 0 <= i < v.len() && (#[trigger] v[i]).email == email && v[i].id != id
}

/// The position of the row with the identifier (meaningful under
/// `existe_id`).
pub open spec fn indice_id(v: Seq<VistaAlumno>, id: int) -> int {
    choose|i: int| 0 <= i < v.len() && (#[trigger] v[i]).id == id
}

/// The row with the identifier (meaningful under `existe_id`).
pub open spec fn fila_id(v: Seq<VistaAlumno>, id: int) -> VistaAlumno {
    v[indice_id(v, id)]
}

/// Rows sorted newest first.
pub open spec fn ordenada(v: Seq<VistaAlumno>) -> bool {
    forall|i: int, j: int| 0 <= i < j < v.len() ==> antes(#[trigger] v[i], #[trigger] v[j])
}

/// No two rows share an identifier.
pub open spec fn ids_unicos(v: Seq<VistaAlumno>) -> bool {
    forall|i: int, j: int|
        0 <= i < v.len() && 0 <= j < v.len() && i != j ==> (#[trigger] v[i]).id != (
        #[trigger] v[j]).id
}

/// No two rows share an email.
pub open spec fn emails_unicos(v: Seq<VistaAlumno>) -> bool {
    forall|i: int, j: int|
        0 <= i < v.len() && 0 <= j < v.len() && i != j ==> (#[trigger] v[i]).email != (
        #[trigger] v[j]).email
}

/// Every identifier lies below the counter.
pub open spec fn ids_bajo(v: Seq<VistaAlumno>, sig: int) -> bool {
    forall|i: int| 0 <= i < v.len() ==> (#[trigger] v[i]).id < sig
}

/// Where the sorted insert places `a`: before the first row that `a`
/// precedes, after every row it does not.
pub open spec fn sp_ordenar_en(v: Seq<VistaAlumno>, a: VistaAlumno) -> Seq<VistaAlumno>
    decreases v.len(),
{
    if v.len() == 0 {
        seq![a]
    } else if antes(a, v[0]) {
        seq![a] + v
    } else {
        seq![v[0]] + sp_ordenar_en(v.drop_first(), a)
    }
}

/// The views of a sequence of rows, in order.
pub open spec fn vistas(filas: Seq<Alumno>) -> Seq<VistaAlumno> {
    filas.map_values(|a: Alumno| a.vista())
}

/// `vistas` indexes to the views of the rows.
pub proof fn lema_vistas(filas: Seq<Alumno>)
    ensures
        vistas(filas).len() == filas.len(),
        forall|j: int| 0 <= j < filas.len() ==> #[trigger] vistas(filas)[j] == filas[j].vista(),
{
}

/// The sorted insert equals splicing `a` in at the first position `k` whose
/// row `a` precedes.
proof fn lema_ordenar_en(v: Seq<VistaAlumno>, a: VistaAlumno, k: int)
    requires
        0 <= k <= v.len(),
        forall|j: int| 0 <= j < k ==> !antes(a, #[trigger] v[j]),
        k < v.len() ==> antes(a, v[k as int]),
    ensures
        sp_ordenar_en(v, a) == v.subrange(0, k) + seq![a] + v.subrange(k, v.len() as int),
    decreases v.len(),
{
    if v.len() == 0 {
        assert(sp_ordenar_en(v, a) =~= v.subrange(0, k) + seq![a] + v.subrange(k, v.len() as int));
    } else if k == 0 {
        assert(antes(a, v[0]));
        assert(seq![a] + v =~= v.subrange(0, 0) + seq![a] + v.subrange(0, v.len() as int));
    } else {
        assert(!antes(a, v[0]));
        let w = v.drop_first();
        assert(forall|j: int| 0 <= j < k - 1 ==> !antes(a, #[trigger] w[j]));
        lema_ordenar_en(w, a, k - 1);
        assert(seq![v[0]] + (w.subrange(0, k - 1) + seq![a] + w.subrange(k - 1, w.len() as int))
            =~= v.subrange(0, k) + seq![a] + v.subrange(k, v.len() as int));
    }
}

/// The students table.
pub struct Tabla {
    pub filas: Vec<Alumno>,
    /// The identifier that the next insert receives.
    pub siguiente_id: i32,
}

impl Tabla {
    /// The mathematical contents: the rows' views, in table order.
    pub open spec fn vista(&self) -> Seq<VistaAlumno> {
        vistas(self.filas@)
    }

    /// Well-formedness: rows sorted newest first, identifiers unique and
    /// below the counter, emails unique.
    pub open spec fn bien_formada(&self) -> bool {
        &&& ordenada(self.vista())
        &&& ids_unicos(self.vista())
        &&& emails_unicos(self.vista())
        &&& ids_bajo(self.vista(), self.siguiente_id as int)
        &&& 1 <= self.siguiente_id
    }

    /// An empty table whose first insert will receive identifier 1.
    pub fn nueva() -> (t: Tabla)
        ensures
            t.vista() == Seq::<VistaAlumno>::empty(),
            t.siguiente_id == 1,
            t.bien_formada(),
    {
        let t = Tabla { filas: Vec::new(), siguiente_id: 1 };
        proof {
            assert(t.vista() =~= Seq::<VistaAlumno>::empty());
        }
        t
    }

    /// Looks a row up by identifier; the result is a copy of the row, or
    /// `None` when no row holds the identifier.
    pub fn buscar(&self, id: i32) -> (r: Option<Alumno>)
        requires
            self.bien_formada(),
        ensures
            (r is Some) == existe_id(self.vista(), id as int),
            r is Some ==> r->0.vista() == fila_id(self.vista(), id as int),
    {
        let ghost v = self.vista();
        let mut i: usize = 0;
        while i < self.filas.len()
            invariant
                i <= self.filas.len(),
                v == self.vista(),
                self.bien_formada(),
                forall|j: int| 0 <= j < i ==> (#[trigger] v[j]).id != id as int,
            decreases self.filas.len() - i,
        {
            if self.filas[i].id == id {
                let fila = self.filas[i].clonar();
                proof {
                    assert(v[i as int].id == id as int);
                    let k = indice_id(v, id as int);
                    assert(0 <= k < v.len() && v[k].id == id as int);
                    assert(k == i as int);
                }
                return Some(fila);
            }
            i += 1;
        }
        None
    }

    /// Whether some row holds the email.
    pub fn email_ocupado(&self, email: &String) -> (r: bool)
        ensures
            r == existe_email(self.vista(), email@),
    {
        let ghost v = self.vista();
        let mut i: usize = 0;
        while i < self.filas.len()
            invariant
                i <= self.filas.len(),
                v == self.vista(),
                forall|j: int| 0 <= j < i ==> (#[trigger] v[j]).email != email@,
            decreases self.filas.len() - i,
        {
            if textos_iguales(self.filas[i].email.as_str(), email.as_str()) {
                proof {
                    assert(v[i as int].email == email@);
                }
                return true;
            }
            i += 1;
        }
        false
    }

    /// Whether some row other than the one with identifier `id` holds the
    /// email.
    pub fn email_ocupado_por_otro(&self, email: &String, id: i32) -> (r: bool)
        ensures
            r == existe_email_ajeno(self.vista(), email@, id as int),
    {
        let ghost v = self.vista();
        let mut i: usize = 0;
        while i < self.filas.len()
            invariant
                i <= self.filas.len(),
                v == self.vista(),
                forall|j: int|
                    0 <= j < i ==> !((#[trigger] v[j]).email == email@ && v[j].id != id as int),
            decreases self.filas.len() - i,
        {
            if self.filas[i].id != id && textos_iguales(self.filas[i].email.as_str(), email.as_str()) {
                proof {
                    assert(v[i as int].email == email@ && v[i as int].id != id as int);
                }
                return true;
            }
            i += 1;
        }
        false
    }
    /// Inserts a fresh row at its place in the listing order. The row's
    /// identifier and email must be free; the counter is not touched here.
    pub fn insertar_ordenada(&mut self, fila: Alumno)
        requires
            old(self).bien_formada(),
            !existe_id(old(self).vista(), fila.vista().id),
            !existe_email(old(self).vista(), fila.vista().email),
            fila.vista().id < old(self).siguiente_id as int,
        ensures
            final(self).vista() == sp_ordenar_en(old(self).vista(), fila.vista()),
            final(self).siguiente_id == old(self).siguiente_id,
            final(self).bien_formada(),
            final(self).vista().len() == old(self).vista().len() + 1,
    {
        let ghost v = old(self).vista();
        let ghost a = fila.vista();
        let mut k: usize = 0;
        while k < self.filas.len() && !(fila.fecha_registro > self.filas[k].fecha_registro || (
        fila.fecha_registro == self.filas[k].fecha_registro && fila.id > self.filas[k].id))
            invariant
                k <= self.filas.len(),
                *self == *old(self),
                v == self.vista(),
                a == fila.vista(),
                forall|j: int| 0 <= j < k ==> !antes(a, #[trigger] v[j]),
            decreases self.filas.len() - k,
        {
            proof {
                lema_vistas(self.filas@);
                assert(!antes(a, v[k as int]));
            }
            k += 1;
        }
        proof {
            lema_vistas(self.filas@);
            assert(k < v.len() ==> antes(a, v[k as int]));
            lema_ordenar_en(v, a, k as int);
        }
        self.filas.insert(k, fila);
        proof {
            let w = v.subrange(0, k as int) + seq![a] + v.subrange(k as int, v.len() as int);
            assert(self.vista() =~= w);
            // Rows other than `a` keep their relative order; `a` sits between
            // the rows it does not precede and the rows it precedes.
            assert forall|i: int, j: int| 0 <= i < j < w.len() implies antes(
                #[trigger] w[i],
                #[trigger] w[j],
            ) by {
                if i < k && j == k {
                    assert(w[i] == v[i]);
                    assert(!antes(a, v[i]));
                    assert(v[i].id != a.id);
                } else if i == k && j > k {
                    assert(w[j] == v[j - 1]);
                } else if i < k && j > k {
                    assert(w[i] == v[i] && w[j] == v[j - 1]);
                } else {
                    assert(i < j < k || k < i < j);
                }
            }
            assert(ids_unicos(self.vista()));
            assert(emails_unicos(self.vista()));
            assert(ids_bajo(self.vista(), self.siguiente_id as int));
        }
    }

    /// The position of the row with the identifier, if any.
    fn posicion_id(&self, id: i32) -> (r: Option<usize>)
        requires
            self.bien_formada(),
        ensures
            (r is Some) == existe_id(self.vista(), id as int),
            r is Some ==> r->0 < self.vista().len() && r->0 as int == indice_id(
                self.vista(),
                id as int,
            ) && self.vista()[r->0 as int].id == id as int,
    {
        let ghost v = self.vista();
        let mut i: usize = 0;
        while i < self.filas.len()
            invariant
                i <= self.filas.len(),
                v == self.vista(),
                self.bien_formada(),
                forall|j: int| 0 <= j < i ==> (#[trigger] v[j]).id != id as int,
            decreases self.filas.len() - i,
        {
            if self.filas[i].id == id {
                proof {
                    assert(v[i as int].id == id as int);
                    let k = indice_id(v, id as int);
                    assert(0 <= k < v.len() && v[k].id == id as int);
                    assert(k == i as int);
                }
                return Some(i);
            }
            i += 1;
        }
        None
    }

    /// Removes the row with the identifier, if any; reports whether one was
    /// there.
    pub fn quitar(&mut self, id: i32) -> (r: bool)
        requires
            old(self).bien_formada(),
        ensures
            r == existe_id(old(self).vista(), id as int),
            r ==> final(self).vista() == old(self).vista().remove(
                indice_id(old(self).vista(), id as int),
            ),
            !r ==> *final(self) == *old(self),
            final(self).siguiente_id == old(self).siguiente_id,
            final(self).bien_formada(),
            forall|e: Seq<char>|
                #[trigger] existe_email(final(self).vista(), e) ==> existe_email(
                    old(self).vista(),
                    e,
                ),
            !existe_id(final(self).vista(), id as int),
    {
        let ghost v = old(self).vista();
        match self.posicion_id(id) {
            None => false,
            Some(i) => {
                self.filas.remove(i);
                proof {
                    let f0 = old(self).filas@;
                    f0.remove_ensures(i as int);
                    lema_vistas(self.filas@);
                    lema_vistas(old(self).filas@);
                    let w = v.remove(i as int);
                    assert(self.vista() =~= w);
                    assert(forall|j: int|
                        0 <= j < w.len() ==> #[trigger] w[j] == (if j < i as int {
                            v[j]
                        } else {
                            v[j + 1]
                        }));
                    assert(ordenada(w));
                    assert(ids_unicos(w));
                    assert(emails_unicos(w));
                    assert(ids_bajo(w, self.siguiente_id as int));
                    assert forall|e: Seq<char>| #[trigger] existe_email(self.vista(), e)
                        implies existe_email(v, e) by {
                        let j = choose|j: int| 0 <= j < w.len() && (#[trigger] w[j]).email == e;
                        assert(w[j] == v[j] || w[j] == v[j + 1]);
                    }
                    assert(!existe_id(w, id as int));
                }
                true
            },
        }
    }

    /// Replaces the row that holds identifier `id` by `nueva`, which must
    /// keep the identifier and registration time and must not take another
    /// row's email.
    pub fn reemplazar(&mut self, id: i32, nueva: Alumno)
        requires
            old(self).bien_formada(),
            existe_id(old(self).vista(), id as int),
            nueva.vista().id == id as int,
            nueva.vista().fecha_registro == fila_id(old(self).vista(), id as int).fecha_registro,
            !existe_email_ajeno(old(self).vista(), nueva.vista().email, id as int),
        ensures
            final(self).vista() == old(self).vista().update(
                indice_id(old(self).vista(), id as int),
                nueva.vista(),
            ),
            final(self).siguiente_id == old(self).siguiente_id,
            final(self).bien_formada(),
    {
        let ghost v = old(self).vista();
        let ghost a = nueva.vista();
        match self.posicion_id(id) {
            None => {
                proof {
                    assert(false);
                }
            },
            Some(i) => {
                self.filas.remove(i);
                self.filas.insert(i, nueva);
                proof {
                    let f0 = old(self).filas@;
                    f0.remove_ensures(i as int);
                    f0.remove(i as int).insert_ensures(i as int, nueva);
                    assert(self.filas@ =~= f0.update(i as int, nueva));
                    lema_vistas(self.filas@);
                    lema_vistas(old(self).filas@);
                    let w = v.update(i as int, a);
                    assert(self.vista() =~= w);
                    assert(forall|j: int|
                        0 <= j < w.len() ==> #[trigger] w[j] == (if j == i as int {
                            a
                        } else {
                            v[j]
                        }));
                    // The replacement keeps the sort key and the identifier,
                    // and takes no email that another row holds.
                    assert(ordenada(w));
                    assert(ids_unicos(w));
                    assert(emails_unicos(w));
                    assert(v[i as int].id < self.siguiente_id as int);
                    assert(ids_bajo(w, self.siguiente_id as int));
                }
            },
        }
    }
}

} // verus!
